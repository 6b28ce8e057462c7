use pos_global::db::{escape_like_pattern, validate_url_syntax};
use pos_global::rules::{bounded_text, nonblank_text, MAX_DEFENSIVE_STEPS};

#[test]
fn test_escape_like_pattern() {
    assert_eq!(escape_like_pattern("100% pure"), "100\\% pure");
    assert_eq!(escape_like_pattern("item_one"), "item\\_one");
    assert_eq!(escape_like_pattern("path\\to"), "path\\\\to");
    assert_eq!(escape_like_pattern("normal"), "normal");
}

#[test]
fn test_validate_url_syntax() {
    assert!(validate_url_syntax(None).unwrap().is_none());
    assert_eq!(
        validate_url_syntax(Some("https://example.com")).unwrap(),
        Some("https://example.com".to_string())
    );
    assert_eq!(
        validate_url_syntax(Some("brand.co.uk/store")).unwrap(),
        Some("brand.co.uk/store".to_string())
    );
    assert!(validate_url_syntax(Some("http://")).is_err());
    assert!(validate_url_syntax(Some("https://")).is_err());
    assert!(validate_url_syntax(Some(".invalid")).is_err());
    assert!(validate_url_syntax(Some("invalid.")).is_err());
    assert!(validate_url_syntax(Some("https://invalid..com")).is_err());
    assert!(validate_url_syntax(Some("https://invalid .com")).is_err());
}

#[test]
fn url_messages_and_trimming() {
    assert_eq!(validate_url_syntax(Some("   ")).unwrap(), None);
    assert_eq!(
        validate_url_syntax(Some("  shop.example.org:8080/x  ")).unwrap(),
        Some("shop.example.org:8080/x".to_string())
    );
    assert_eq!(
        validate_url_syntax(Some("https://invalid .com")).unwrap_err(),
        "Website URL cannot contain whitespace"
    );
    assert_eq!(
        validate_url_syntax(Some("localhost")).unwrap_err(),
        "Website URL must be a valid web address or domain"
    );
    let long = format!("{}.com", "a".repeat(2050));
    assert_eq!(
        validate_url_syntax(Some(&long)).unwrap_err(),
        "Website URL exceeds maximum length of 2048 characters"
    );
}

#[test]
fn escaping_leaves_plain_text_alone() {
    assert_eq!(escape_like_pattern("plain words 123"), "plain words 123");
    assert_eq!(escape_like_pattern("%_\\"), "\\%\\_\\\\");
    assert_eq!(escape_like_pattern(""), "");
}

#[test]
fn bounded_and_nonblank_text() {
    assert_eq!(bounded_text("  abc ", "empty", 3, false, "long"), Ok("abc".to_string()));
    assert_eq!(bounded_text("  abcd ", "empty", 3, false, "long"), Err("long".to_string()));
    assert_eq!(bounded_text(" \t ", "empty", 3, false, "long"), Err("empty".to_string()));
    // Two characters, four bytes.
    assert_eq!(bounded_text("éé", "empty", 3, false, "long"), Ok("éé".to_string()));
    assert_eq!(bounded_text("éé", "empty", 3, true, "long"), Err("long".to_string()));
    assert_eq!(nonblank_text("  id-1 ", "missing"), Ok("id-1".to_string()));
    assert_eq!(nonblank_text("   ", "missing"), Err("missing".to_string()));
    assert_eq!(MAX_DEFENSIVE_STEPS, 50);
}

#[test]
fn failed_transaction_rolls_back_all_changes() {
    let mut conn = rusqlite::Connection::open_in_memory().expect("open in-memory database");
    conn.execute_batch("CREATE TABLE rollback_probe (id INTEGER PRIMARY KEY, value TEXT NOT NULL UNIQUE);")
        .expect("setup should succeed");
    {
        let tx = conn.transaction().expect("transaction should start");
        tx.execute("INSERT INTO rollback_probe(id, value) VALUES (1, 'first')", [])
            .expect("first insert should succeed");
        let duplicate = tx.execute("INSERT INTO rollback_probe(id, value) VALUES (2, 'first')", []);
        assert!(duplicate.is_err(), "duplicate insert must fail");
    }
    let count: i64 = conn
        .query_row("SELECT COUNT(*) FROM rollback_probe", [], |row| row.get(0))
        .expect("rollback probe should remain queryable");
    assert_eq!(count, 0);
}
