use hello_axum::startup::{listen_address, select_mode, Mode};
use hello_axum::text::same;

#[test]
fn modes_by_name() {
    assert_eq!(select_mode("redis"), Some(Mode::KeyValue));
    assert_eq!(select_mode("sqlx"), Some(Mode::Relational));
    assert_eq!(select_mode("postgres"), Some(Mode::Relational));
    assert_eq!(select_mode("client"), None);
    assert_eq!(select_mode("Redis"), None);
    assert_eq!(select_mode(""), None);
}

#[test]
fn listens_on_every_interface() {
    assert_eq!(listen_address(None), "0.0.0.0:3000");
    assert_eq!(listen_address(Some("8080".to_string())), "0.0.0.0:8080");
    assert_eq!(listen_address(Some("".to_string())), "0.0.0.0:");
}

#[test]
fn same_compares_characters() {
    assert!(same("", ""));
    assert!(same("abc", "abc"));
    assert!(!same("abc", "abd"));
    assert!(!same("abc", "ab"));
}
