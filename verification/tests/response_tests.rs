use rustbackendstarter::pagination::PageWindow;
use rustbackendstarter::responses::{header_value_ok, usable_origins, DashboardResponse, HealthResponse};
use rustbackendstarter::tokens::Claims;
use rustbackendstarter::users::{user_list_item, users_response, UserRecord};

#[test]
fn dashboard_echoes_claims() {
    let c = Claims { sub: "id-1".to_string(), role: "admin".to_string(), exp: 10, iat: 1 };
    let d = DashboardResponse::for_claims(&c);
    assert_eq!(d.user_id, "id-1");
    assert_eq!(d.role, "admin");
    assert_eq!(d.message, "Welcome, admin! You are logged in.");
}

#[test]
fn health_reports_database_state() {
    let up = HealthResponse::from_probe(Ok(()), "0.1.0");
    assert_eq!((up.status.as_str(), up.database.as_str(), up.version.as_str()), ("ok", "up", "0.1.0"));
    let down = HealthResponse::from_probe(Err("connection refused".to_string()), "0.1.0");
    assert_eq!(down.database, "down: connection refused");
    assert_eq!(down.status, "ok");
    assert_eq!(up.status_code(), 200);
    assert_eq!(down.status_code(), 500);
}

#[test]
fn origins_that_are_header_values() {
    assert!(header_value_ok("http://localhost:3000"));
    assert!(header_value_ok("tab\tok"));
    assert!(!header_value_ok("bad\nline"));
    assert!(!header_value_ok("del\u{7f}"));
    let o = vec!["http://a".to_string(), "bad\r".to_string(), "https://b".to_string()];
    assert_eq!(usable_origins(&o), vec!["http://a".to_string(), "https://b".to_string()]);
}

fn rec(id: u128, micros: i64) -> UserRecord {
    UserRecord { id, email: format!("u{}@example.com", id), role: "user".to_string(), created_at_micros: micros }
}

#[test]
fn user_listing_formats_times() {
    let item = user_list_item(&rec(1, 0)).unwrap();
    assert_eq!(item.created_at, "1970-01-01T00:00:00+00:00");
    assert_eq!(item.email, "u1@example.com");
    let item = user_list_item(&rec(2, 1_700_000_000_123_456)).unwrap();
    assert_eq!(item.created_at, "2023-11-14T22:13:20.123456+00:00");
    assert!(user_list_item(&rec(3, i64::MAX)).is_none());
}

#[test]
fn users_response_keeps_order_and_window() {
    let w = PageWindow { page: 2, per_page: 2, offset: 2 };
    let rows = vec![rec(5, 1_000_000), rec(4, 0)];
    let r = users_response(&w, 7, &rows).unwrap();
    assert_eq!((r.page, r.per_page, r.total), (2, 2, 7));
    assert_eq!(r.users.iter().map(|u| u.id).collect::<Vec<_>>(), vec![5, 4]);
    assert_eq!(r.users[0].created_at, "1970-01-01T00:00:01+00:00");
    assert!(users_response(&w, 7, &vec![rec(1, 0), rec(2, i64::MAX)]).is_none());
    assert!(users_response(&w, 0, &vec![]).unwrap().users.is_empty());
}
