use uncovr::openapi::OpenApiConfig;

#[test]
fn document_head() {
    let c = OpenApiConfig::new("My API", "1.0.0")
        .description("A comprehensive API")
        .terms_of_service("https://example.com/terms")
        .server("https://api.example.com", "Production")
        .server("http://localhost:3000", "Development");
    let info = c.build();
    assert_eq!(info.title, "My API");
    assert_eq!(info.version, "1.0.0");
    assert_eq!(info.description, Some("A comprehensive API".to_string()));
    assert_eq!(info.terms_of_service, Some("https://example.com/terms".to_string()));
    assert!(info.contact.is_none());
    assert!(info.license.is_none());
    assert_eq!(info.servers.len(), 2);
    assert_eq!(info.servers[1].0, "http://localhost:3000");
}

#[test]
fn contact_and_license() {
    let info = OpenApiConfig::new("A", "1")
        .contact("Ann", "ann@example.com", "https://ann.example")
        .license("MIT", "https://opensource.org/licenses/MIT")
        .build();
    let contact = info.contact.unwrap();
    assert_eq!(contact.name, "Ann");
    assert_eq!(contact.email, "ann@example.com");
    let license = info.license.unwrap();
    assert_eq!(license.name, "MIT");
    assert_eq!(license.url, "https://opensource.org/licenses/MIT");
}
