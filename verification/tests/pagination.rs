use api::pagination::{
    classify_asset, compute_cursors, page_total, pairs_page_meta, parse_cursor, parse_page,
    ApiError, AssetRef, Page, PairsQuery, DEFAULT_PAGE_SIZE, MAX_PAGE_SIZE,
};

#[test]
fn parse_page_defaults() {
    let page = parse_page(&PairsQuery::default()).unwrap();
    assert_eq!(page.limit, 25);
    assert_eq!(page.offset, 0);
}

#[test]
fn parse_page_respects_max_cap() {
    let page = parse_page(&PairsQuery {
        limit: Some(500),
        cursor: None,
        offset: None,
    })
    .unwrap();
    assert_eq!(page.limit, 100);
}

#[test]
fn parse_page_rejects_invalid_cursor() {
    let err = parse_page(&PairsQuery {
        limit: Some(10),
        cursor: Some("bad-cursor".to_string()),
        offset: None,
    })
    .unwrap_err();
    assert!(matches!(err, ApiError::Validation(_)));
}

#[test]
fn parse_page_uses_cursor_precedence() {
    let page = parse_page(&PairsQuery {
        limit: Some(10),
        cursor: Some("30".to_string()),
        offset: Some(5),
    })
    .unwrap();
    assert_eq!(page.offset, 30);
}

#[test]
fn compute_cursors_first_page_has_next_only() {
    let (next_cursor, prev_cursor) = compute_cursors(0, 25, 25, 100);
    assert_eq!(next_cursor.as_deref(), Some("25"));
    assert!(prev_cursor.is_none());
}

#[test]
fn compute_cursors_last_page_has_prev_only() {
    let (next_cursor, prev_cursor) = compute_cursors(75, 25, 25, 100);
    assert!(next_cursor.is_none());
    assert_eq!(prev_cursor.as_deref(), Some("50"));
}

#[test]
fn parse_page_raises_zero_limit_to_one() {
    let page = parse_page(&PairsQuery { limit: Some(0), cursor: None, offset: None }).unwrap();
    assert_eq!(page.limit, 1);
}

#[test]
fn parse_page_keeps_limit_in_range() {
    for l in [1usize, 2, 50, 99, 100] {
        let page = parse_page(&PairsQuery { limit: Some(l), cursor: None, offset: None }).unwrap();
        assert_eq!(page.limit, l);
    }
    let page = parse_page(&PairsQuery { limit: Some(101), cursor: None, offset: None }).unwrap();
    assert_eq!(page.limit, MAX_PAGE_SIZE);
    let page = parse_page(&PairsQuery { limit: None, cursor: None, offset: None }).unwrap();
    assert_eq!(page.limit, DEFAULT_PAGE_SIZE);
}

#[test]
fn parse_page_uses_offset_without_cursor() {
    let page = parse_page(&PairsQuery { limit: None, cursor: None, offset: Some(40) }).unwrap();
    assert_eq!(page.offset, 40);
    assert_eq!(page.limit, 25);
}

#[test]
fn parse_page_error_message() {
    let err = parse_page(&PairsQuery { limit: None, cursor: Some("-5".to_string()), offset: Some(3) })
        .unwrap_err();
    match err {
        ApiError::Validation(m) => assert_eq!(m, "Invalid cursor; expected a numeric offset"),
    }
}

#[test]
fn parse_cursor_accepts_plus_and_leading_zeros() {
    assert_eq!(parse_cursor("+12").unwrap(), 12);
    assert_eq!(parse_cursor("0007").unwrap(), 7);
    assert_eq!(parse_cursor("0").unwrap(), 0);
}

#[test]
fn parse_cursor_rejects_malformed() {
    for bad in ["", "+", "-1", " 1", "1 ", "1.5", "١", "12a", "++1", "99999999999999999999999"] {
        assert!(matches!(parse_cursor(bad), Err(ApiError::Validation(_))), "{:?}", bad);
    }
}

#[test]
fn parse_cursor_agrees_with_std_parse() {
    let inputs = [
        "0", "1", "+0", "42", "18446744073709551615", "18446744073709551616", "+18446744073709551615",
        "-0", "", "+", "a", "00000000000000000000000000001", "9", "10", "4294967296",
    ];
    for s in inputs {
        assert_eq!(parse_cursor(s).ok(), s.parse::<usize>().ok(), "{:?}", s);
    }
}

#[test]
fn next_cursor_round_trips_through_parse_page() {
    let (next, prev) = compute_cursors(50, 25, 25, 200);
    let page = parse_page(&PairsQuery { limit: Some(25), cursor: next, offset: None }).unwrap();
    assert_eq!(page.offset, 75);
    let back = parse_page(&PairsQuery { limit: Some(25), cursor: prev, offset: None }).unwrap();
    assert_eq!(back.offset, 25);
}

#[test]
fn forward_then_back_returns_to_same_page() {
    let (next, _) = compute_cursors(30, 10, 10, 100);
    let next_offset = parse_cursor(next.as_deref().unwrap()).unwrap();
    let (_, prev) = compute_cursors(next_offset, 10, 10, 100);
    assert_eq!(prev.as_deref(), Some("30"));
}

#[test]
fn prev_cursor_saturates_at_zero() {
    let (next, prev) = compute_cursors(10, 25, 5, 15);
    assert!(next.is_none());
    assert_eq!(prev.as_deref(), Some("0"));
}

#[test]
fn short_page_with_more_items_has_next() {
    let (next, prev) = compute_cursors(0, 25, 3, 4);
    assert_eq!(next.as_deref(), Some("3"));
    assert!(prev.is_none());
}

#[test]
fn page_total_reads_count() {
    assert_eq!(page_total(Some(42)), 42);
    assert_eq!(page_total(None), 0);
}

#[test]
fn pairs_page_meta_builds_cursors() {
    let page = Page { limit: 25, offset: 25 };
    let meta = pairs_page_meta(&page, Some(60), 25);
    assert_eq!(meta.total, 60);
    assert_eq!(meta.limit, Some(25));
    assert_eq!(meta.next_cursor.as_deref(), Some("50"));
    assert_eq!(meta.prev_cursor.as_deref(), Some("0"));
    let empty = pairs_page_meta(&Page { limit: 10, offset: 0 }, None, 0);
    assert_eq!(empty.total, 0);
    assert!(empty.next_cursor.is_none());
    assert!(empty.prev_cursor.is_none());
}

#[test]
fn classify_asset_native_and_credit() {
    assert!(matches!(
        classify_asset(&"native".to_string(), Some("XLM".to_string()), None),
        AssetRef::Native
    ));
    match classify_asset(&"credit_alphanum4".to_string(), None, Some("GABC".to_string())) {
        AssetRef::Credit { code, issuer } => {
            assert_eq!(code, "");
            assert_eq!(issuer.as_deref(), Some("GABC"));
        }
        AssetRef::Native => panic!("expected a credit asset"),
    }
    match classify_asset(&"credit_alphanum12".to_string(), Some("USDC".to_string()), None) {
        AssetRef::Credit { code, issuer } => {
            assert_eq!(code, "USDC");
            assert!(issuer.is_none());
        }
        AssetRef::Native => panic!("expected a credit asset"),
    }
}
