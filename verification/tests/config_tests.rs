use rustbackendstarter::config::AppConfig;
use rustbackendstarter::pagination::{default_page, default_per_page, page_window, try_page_window, PaginationParams};

fn s(v: &str) -> Option<String> {
    Some(v.to_string())
}

const SECRET: &str = "0123456789abcdef0123456789abcdef";

#[test]
fn config_reads_all_values() {
    let c = AppConfig::from_values(
        s("postgres://db"),
        s(SECRET),
        s("boss@example.com"),
        s("hunter22"),
        s("http://a.example, http://b.example ,http://c.example"),
        s("8080"),
    )
    .unwrap();
    assert_eq!(c.database_url, "postgres://db");
    assert_eq!(c.jwt_secret, SECRET);
    assert_eq!(c.admin_email, "boss@example.com");
    assert_eq!(c.admin_password, "hunter22");
    assert_eq!(
        c.allowed_origins,
        vec!["http://a.example".to_string(), "http://b.example".to_string(), "http://c.example".to_string()]
    );
    assert_eq!(c.port, 8080);
}

#[test]
fn config_defaults() {
    let c = AppConfig::from_values(s("db"), s(SECRET), None, s("pw"), None, None).unwrap();
    assert_eq!(c.admin_email, "admin@example.com");
    assert_eq!(c.allowed_origins, vec!["http://localhost:3000".to_string()]);
    assert_eq!(c.port, 3000);
}

#[test]
fn config_errors_in_order() {
    assert_eq!(
        AppConfig::from_values(None, None, None, None, None, s("x")).unwrap_err(),
        "DATABASE_URL must be set"
    );
    assert_eq!(
        AppConfig::from_values(s("db"), None, None, None, None, None).unwrap_err(),
        "JWT_SECRET must be set"
    );
    assert_eq!(
        AppConfig::from_values(s("db"), s("short"), None, None, None, None).unwrap_err(),
        "JWT_SECRET must be at least 32 characters"
    );
    assert_eq!(
        AppConfig::from_values(s("db"), s(SECRET), None, None, None, None).unwrap_err(),
        "ADMIN_PASSWORD must be set"
    );
    assert_eq!(
        AppConfig::from_values(s("db"), s(SECRET), None, s("pw"), None, s("http")).unwrap_err(),
        "PORT must be a valid number"
    );
}

#[test]
fn config_secret_length_counts_bytes() {
    // 16 two-byte characters make 32 bytes.
    let secret = "é".repeat(16);
    assert!(AppConfig::from_values(s("db"), Some(secret), None, s("pw"), None, None).is_ok());
    let short = "a".repeat(31);
    assert!(AppConfig::from_values(s("db"), Some(short), None, s("pw"), None, None).is_err());
    // Ten three-byte characters make 30 bytes; eleven make 33.
    let euros = "€".repeat(10);
    assert_eq!(
        AppConfig::from_values(s("db"), Some(euros), None, s("pw"), None, None).unwrap_err(),
        "JWT_SECRET must be at least 32 characters"
    );
    assert!(AppConfig::from_values(s("db"), Some("€".repeat(11)), None, s("pw"), None, None).is_ok());
}

#[test]
fn config_port_parsing() {
    let port = |p: &str| AppConfig::from_values(s("db"), s(SECRET), None, s("pw"), None, s(p)).map(|c| c.port);
    assert_eq!(port("+8080"), Ok(8080));
    assert_eq!(port("0065535"), Ok(65535));
    assert!(port("65536").is_err());
    assert!(port("").is_err());
    assert!(port("+").is_err());
    assert!(port("-1").is_err());
    assert!(port(" 80").is_err());
}

#[test]
fn config_origins_keep_empty_pieces() {
    let c = AppConfig::from_values(s("db"), s(SECRET), None, s("pw"), s(" a ,, b\t"), None).unwrap();
    assert_eq!(c.allowed_origins, vec!["a".to_string(), "".to_string(), "b".to_string()]);
}

#[test]
fn pagination_defaults() {
    assert_eq!(default_page(), 1);
    assert_eq!(default_per_page(), 20);
    let p = PaginationParams::from_query(None, None);
    assert_eq!(p, PaginationParams { page: 1, per_page: 20 });
    assert_eq!(PaginationParams::from_query(Some(3), Some(7)), PaginationParams { page: 3, per_page: 7 });
}

#[test]
fn pagination_window_clamps() {
    let w = page_window(&PaginationParams { page: 3, per_page: 20 });
    assert_eq!((w.page, w.per_page, w.offset), (3, 20, 40));
    let w = page_window(&PaginationParams { page: 0, per_page: 1000 });
    assert_eq!((w.page, w.per_page, w.offset), (1, 100, 0));
    let w = page_window(&PaginationParams { page: -5, per_page: -5 });
    assert_eq!((w.page, w.per_page, w.offset), (1, 1, 0));
}

#[test]
fn pagination_window_overflow_is_refused() {
    assert!(try_page_window(&PaginationParams { page: i64::MAX, per_page: 100 }).is_none());
    assert!(try_page_window(&PaginationParams { page: i64::MAX, per_page: 1 }).is_some());
    let w = try_page_window(&PaginationParams { page: 2, per_page: 0 }).unwrap();
    assert_eq!((w.page, w.per_page, w.offset), (2, 1, 1));
}
