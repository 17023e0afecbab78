use surface_scan::methods::Method;
use surface_scan::CUSTOMER;

#[test]
fn customer_variants_hold_their_text() {
    let targets = vec![
        CUSTOMER::URL("https://example.com".to_string()),
        CUSTOMER::DOMAIN("example.com".to_string()),
        CUSTOMER::IP("192.0.2.1".to_string()),
    ];
    for t in targets {
        match t {
            CUSTOMER::URL(u) => assert_eq!(u, "https://example.com"),
            CUSTOMER::DOMAIN(d) => assert_eq!(d, "example.com"),
            CUSTOMER::IP(i) => assert_eq!(i, "192.0.2.1"),
        }
    }
}

#[test]
fn method_descriptor_carries_its_parts() {
    let m = Method {
        name: "POST".to_string(),
        parameters: vec!["user=admin".to_string(), "#".to_string()],
        url: "/login".to_string(),
    };
    let copy = m.clone();
    assert_eq!(copy.name, "POST");
    assert_eq!(copy.parameters.len(), 2);
    assert_eq!(copy.url, "/login");
}
