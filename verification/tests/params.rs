use check_qualys::error::DomainError;
use check_qualys::params::Params;

#[test]
fn request_url_with_both_switches_off() {
    let params = Params::new("www.example.com").unwrap();
    assert_eq!(
        params.request_url(),
        "https://api.ssllabs.com/api/v3/analyze?host=www.example.com&publish=off&fromCache=off"
    );
}

#[test]
fn request_url_with_caching() {
    let mut params = Params::new("www.example.com").unwrap();
    params.caching(true);
    assert_eq!(
        params.request_url(),
        "https://api.ssllabs.com/api/v3/analyze?host=www.example.com&publish=off&fromCache=on"
    );
}

#[test]
fn request_url_with_publication() {
    let mut params = Params::new("www.example.com").unwrap();
    params.publish(true);
    assert_eq!(
        params.request_url(),
        "https://api.ssllabs.com/api/v3/analyze?host=www.example.com&publish=on&fromCache=off"
    );
}

#[test]
fn request_url_with_both_switches_on() {
    let mut params = Params::new("example.org").unwrap();
    params.caching(true);
    params.publish(true);
    assert_eq!(
        params.request_url(),
        "https://api.ssllabs.com/api/v3/analyze?host=example.org&publish=on&fromCache=on"
    );
}

#[test]
fn switches_can_be_turned_off_again() {
    let mut params = Params::new("example.org").unwrap();
    params.caching(true);
    params.publish(true);
    params.caching(false);
    params.publish(false);
    assert_eq!(
        params.request_url(),
        "https://api.ssllabs.com/api/v3/analyze?host=example.org&publish=off&fromCache=off"
    );
}

#[test]
fn domain_is_kept_as_given() {
    let params = Params::new("WWW.Example.COM").unwrap();
    assert_eq!(params.domain(), "WWW.Example.COM");
    let params = Params::new("a.b.example.uk.com").unwrap();
    assert_eq!(params.domain(), "a.b.example.uk.com");
}

#[test]
fn accepts_domain_names() {
    assert!(Params::new("example.com").is_ok());
    assert!(Params::new("www.example.com").is_ok());
    assert!(Params::new("sub-domain.example.co.uk").is_ok());
    assert!(Params::new("www.xn--85x722f.xn--55qx5d.cn").is_ok());
    assert!(Params::new("example.com.").is_ok());
}

#[test]
fn rejects_what_is_no_domain_name() {
    assert!(matches!(Params::new(""), Err(DomainError)));
    assert!(matches!(Params::new("exa mple.com"), Err(DomainError)));
    assert!(matches!(Params::new("-example.com"), Err(DomainError)));
    assert!(matches!(Params::new("example-.com"), Err(DomainError)));
    assert!(matches!(Params::new("example..com"), Err(DomainError)));
    assert!(matches!(Params::new(".example.com"), Err(DomainError)));
    assert!(matches!(Params::new("example.123"), Err(DomainError)));
    assert!(matches!(Params::new("https://www.example.com"), Err(DomainError)));
    assert!(matches!(Params::new("www.example.com/path"), Err(DomainError)));
    assert!(matches!(Params::new("exam_ple.com"), Err(DomainError)));
}

#[test]
fn rejects_names_that_are_too_long() {
    let label = "a".repeat(64);
    assert!(Params::new(&format!("{}.com", label)).is_err());
    let label = "a".repeat(63);
    assert!(Params::new(&format!("{}.com", label)).is_ok());
    let long = format!("{}.{}.{}.{}.com", label, label, label, label);
    assert!(Params::new(&long).is_err());
}

#[test]
fn accepts_names_in_other_scripts() {
    let params = Params::new("www.食狮.中国").unwrap();
    assert_eq!(
        params.request_url(),
        "https://api.ssllabs.com/api/v3/analyze?host=www.食狮.中国&publish=off&fromCache=off"
    );
}
