use goods_inventory::config::{AppConfig, ConfigError, ServerConfig, Settings, read_unsigned};
use goods_inventory::database::{
    count_by_foreign_key, exists_by_id, exists_by_string, get_id_by_string, health_check,
    verify_table_access,
};
use goods_inventory::datetime::{
    days_between, days_until_expiration, flexible_date_from, is_expired, is_expired_at,
    parse_first_date, parse_flexible_date, Timestamp,
};
use goods_inventory::decimal::Decimal;
use goods_inventory::error::{ErrorKind, StoreError};
use goods_inventory::pagination::{PaginatedResponse, PaginationParams};
use goods_inventory::query_builder::SearchQueryBuilder;
use goods_inventory::response::{format_database_error, format_error_message, format_success_message};
use goods_inventory::sql::{Column, Table, Value};

fn settings() -> Settings {
    Settings { database_url: Some("postgres://db".to_string()), max_connections: None, host: None, port: None, file: None }
}

#[test]
fn config_uses_defaults_where_nothing_is_set() {
    let config = AppConfig::from_settings(settings()).unwrap();
    assert_eq!(config.database.database_url, "postgres://db");
    assert_eq!(config.database.max_connections, 20);
    assert_eq!(config.server, ServerConfig { host: "0.0.0.0".to_string(), port: 3000 });
}

#[test]
fn config_prefers_the_file_for_the_server() {
    let mut s = settings();
    s.host = Some("127.0.0.1".to_string());
    s.port = Some("not a port".to_string());
    s.max_connections = Some("5".to_string());
    s.file = Some(ServerConfig { host: "example.org".to_string(), port: 8080 });
    let config = AppConfig::from_settings(s).unwrap();
    assert_eq!(config.server, ServerConfig { host: "example.org".to_string(), port: 8080 });
    assert_eq!(config.database.max_connections, 5);
}

#[test]
fn config_reads_host_and_port_from_the_environment() {
    let mut s = settings();
    s.host = Some("127.0.0.1".to_string());
    s.port = Some("8081".to_string());
    let config = AppConfig::from_settings(s).unwrap();
    assert_eq!(config.server, ServerConfig { host: "127.0.0.1".to_string(), port: 8081 });
}

#[test]
fn config_names_what_is_missing_or_wrong() {
    let mut s = settings();
    s.database_url = None;
    s.max_connections = Some("x".to_string());
    assert_eq!(AppConfig::from_settings(s), Err(ConfigError::MissingDatabaseUrl));
    let mut s = settings();
    s.max_connections = Some("4294967296".to_string());
    s.port = Some("70000".to_string());
    assert_eq!(AppConfig::from_settings(s), Err(ConfigError::InvalidMaxConnections));
    let mut s = settings();
    s.port = Some("65536".to_string());
    assert_eq!(AppConfig::from_settings(s), Err(ConfigError::InvalidPort));
    let mut s = settings();
    s.port = Some("-1".to_string());
    assert_eq!(AppConfig::from_settings(s), Err(ConfigError::InvalidPort));
}

#[test]
fn read_unsigned_agrees_with_the_standard_parser() {
    for text in ["0", "20", "+20", "4294967295", "4294967296", "", "+", "-0", "1 ", "0010", "++1"] {
        assert_eq!(read_unsigned(text, u32::MAX), text.parse::<u32>().ok(), "{}", text);
    }
    for text in ["65535", "65536", "3000"] {
        assert_eq!(read_unsigned(text, 65535).map(|n| n as u16), text.parse::<u16>().ok(), "{}", text);
    }
}

#[test]
fn small_statements_name_tables_and_columns() {
    let s = exists_by_id(Table::Goods, Column::GoodsId, 7);
    assert_eq!(s.sql, "SELECT EXISTS(SELECT 1 FROM goods WHERE goods_id = $1)");
    assert_eq!(s.binds, vec![Value::Int(7)]);
    let s = exists_by_string(Table::Goods, Column::MaterialCode, "MC1");
    assert_eq!(s.sql, "SELECT EXISTS(SELECT 1 FROM goods WHERE material_code = $1)");
    assert_eq!(s.binds, vec![Value::Text("MC1".to_string())]);
    let s = get_id_by_string(Table::Goods, Column::GoodsId, Column::MaterialCode, "MC1");
    assert_eq!(s.sql, "SELECT goods_id FROM goods WHERE material_code = $1");
    assert_eq!(s.binds, vec![Value::Text("MC1".to_string())]);
    let s = count_by_foreign_key(Table::Inventory, Column::GoodsId, 3);
    assert_eq!(s.sql, "SELECT COUNT(*) FROM inventory WHERE goods_id = $1");
    assert_eq!(s.binds, vec![Value::Int(3)]);
    let s = verify_table_access(Table::Inventory);
    assert_eq!(s.sql, "SELECT 1 FROM inventory LIMIT 1");
    assert!(s.binds.is_empty());
    assert_eq!(health_check().sql, "SELECT 1");
}

#[test]
fn flexible_dates_mean_their_midnight() {
    assert_eq!(parse_flexible_date("2024-01-15T10:30:00Z"), Ok(Timestamp { secs: 1705314600, nanos: 0 }));
    assert_eq!(parse_flexible_date("2024-01-15"), Ok(Timestamp { secs: 1705276800, nanos: 0 }));
    assert_eq!(parse_flexible_date("2024/01/15"), Ok(Timestamp { secs: 1705276800, nanos: 0 }));
    assert_eq!(parse_flexible_date("15/01/2024"), Ok(Timestamp { secs: 1705276800, nanos: 0 }));
    assert_eq!(parse_flexible_date("01/15/2024"), Ok(Timestamp { secs: 1705276800, nanos: 0 }));
    assert_eq!(parse_flexible_date("2024-01-15 08:00:00"), Ok(Timestamp { secs: 1705276800, nanos: 0 }));
    assert_eq!(parse_flexible_date("1970-01-01"), Ok(Timestamp { secs: 0, nanos: 0 }));
    assert_eq!(parse_flexible_date("1969-12-31"), Ok(Timestamp { secs: -86400, nanos: 0 }));
    assert_eq!(
        parse_flexible_date("tomorrow"),
        Err("Unable to parse date. Use ISO 8601 format (YYYY-MM-DDTHH:MM:SSZ) or YYYY-MM-DD".to_string())
    );
    assert_eq!(parse_first_date("2024-02-30"), None);
    assert_eq!(parse_first_date("0001-01-01"), Some(1));
    assert_eq!(Timestamp::at_midnight(719_163), Timestamp { secs: 0, nanos: 0 });
}

#[test]
fn flexible_date_from_prefers_the_full_point_in_time() {
    let t = Timestamp { secs: 5, nanos: 1 };
    assert_eq!(flexible_date_from(Some(t), Some(719_164)), Ok(t));
    assert_eq!(flexible_date_from(None, Some(719_164)), Ok(Timestamp { secs: 86400, nanos: 0 }));
    assert!(flexible_date_from(None, None).is_err());
}

#[test]
fn expiry_is_strictly_before_now() {
    let now = Timestamp { secs: 100, nanos: 5 };
    assert!(is_expired_at(&Timestamp { secs: 99, nanos: 999 }, &now));
    assert!(is_expired_at(&Timestamp { secs: 100, nanos: 4 }, &now));
    assert!(!is_expired_at(&now, &now));
    assert!(!is_expired_at(&Timestamp { secs: 100, nanos: 6 }, &now));
    assert!(now.is_not_after(&now));
    assert!(!Timestamp { secs: 101, nanos: 0 }.is_not_after(&now));
    assert!(is_expired(&Timestamp { secs: 0, nanos: 0 }));
    assert!(!is_expired(&Timestamp { secs: 253402300799, nanos: 0 }));
}

#[test]
fn days_round_towards_zero() {
    let now = Timestamp { secs: 1_000_000, nanos: 0 };
    assert_eq!(days_between(&Timestamp { secs: 1_000_000 + 86_400 * 3, nanos: 0 }, &now), 3);
    assert_eq!(days_between(&Timestamp { secs: 1_000_000 + 86_399, nanos: 0 }, &now), 0);
    assert_eq!(days_between(&Timestamp { secs: 1_000_000 - 1, nanos: 0 }, &now), 0);
    assert_eq!(days_between(&Timestamp { secs: 1_000_000 - 86_400, nanos: 0 }, &now), -1);
    assert_eq!(days_between(&Timestamp { secs: 1_000_000 - 86_400 * 2 - 1, nanos: 0 }, &now), -2);
    assert_eq!(days_between(&Timestamp { secs: i64::MAX, nanos: 0 }, &Timestamp { secs: i64::MIN, nanos: 0 }), 213503982334601);
    assert!(days_until_expiration(&Timestamp { secs: 0, nanos: 0 }) < 0);
    assert!(days_until_expiration(&Timestamp { secs: 253402300799, nanos: 0 }) > 0);
}

#[test]
fn decimals_compare_as_numbers() {
    let d = |mantissa: i128, scale: u32| Decimal { mantissa, scale };
    assert_eq!(d(10, 0).order_with(&d(1000, 2)), 0);
    assert_eq!(d(1000, 2).order_with(&d(10, 0)), 0);
    assert_eq!(d(999, 2).order_with(&d(10, 0)), -1);
    assert_eq!(d(10, 0).order_with(&d(999, 2)), 1);
    assert_eq!(d(-1, 28).order_with(&d(0, 0)), -1);
    assert_eq!(d(0, 5).order_with(&d(0, 0)), 0);
    assert_eq!(d(-5, 1).order_with(&d(-50, 2)), 0);
    assert_eq!(d(-5, 1).order_with(&d(-49, 2)), -1);
    assert_eq!(d(1, 0).order_with(&d(i128::MAX, 40)), 1);
    assert_eq!(d(i128::MIN, 0).order_with(&d(i128::MAX, 0)), -1);
    assert_eq!(d(i128::MIN, 0).order_with(&d(i128::MIN, 1)), -1);
    assert_eq!(d(1, u32::MAX).order_with(&d(1, 0)), -1);
    assert!(d(1000, 2).equals(&d(10, 0)));
    assert!(d(1000, 2).at_most(&d(10, 0)));
    assert!(!d(1001, 2).at_most(&d(10, 0)));
    assert!(d(-1, 0).is_negative() && !d(0, 3).is_negative());
    assert!(d(0, 3).is_zero() && !d(1, 3).is_zero());
    assert!(d(1, 3).is_positive() && !d(0, 0).is_positive());
    assert_eq!(Decimal::from_int(-7), d(-7, 0));
}

#[test]
fn decimals_compare_as_the_decimal_crate_does() {
    let cases: [(i128, u32, i128, u32); 6] =
        [(5, 0, 500, 2), (1, 3, 1, 2), (-12, 1, -1, 0), (79228162514264337593543950335, 0, 1, 28), (0, 0, -1, 5), (123456, 3, 123457, 3)];
    for (m1, s1, m2, s2) in cases {
        let a = rust_decimal::Decimal::from_i128_with_scale(m1, s1);
        let b = rust_decimal::Decimal::from_i128_with_scale(m2, s2);
        let expected = match a.cmp(&b) {
            std::cmp::Ordering::Less => -1,
            std::cmp::Ordering::Equal => 0,
            std::cmp::Ordering::Greater => 1,
        };
        assert_eq!(Decimal { mantissa: m1, scale: s1 }.order_with(&Decimal { mantissa: m2, scale: s2 }), expected);
    }
}

#[test]
fn store_errors_are_classified() {
    let db = |code: Option<&str>| StoreError::Database { code: code.map(|c| c.to_string()) };
    assert_eq!(StoreError::RowNotFound.classify(), ErrorKind::NotFound);
    assert_eq!(db(Some("23505")).classify(), ErrorKind::Conflict);
    assert_eq!(db(Some("23503")).classify(), ErrorKind::ReferentialBlock);
    assert_eq!(db(Some("23514")).classify(), ErrorKind::StoreFailure);
    assert_eq!(db(Some("42601")).classify(), ErrorKind::StoreFailure);
    assert_eq!(db(None).classify(), ErrorKind::StoreFailure);
    assert_eq!(StoreError::Other.classify(), ErrorKind::StoreFailure);
    assert!(db(Some("23505")).is_unique_violation());
    assert!(!db(Some("23503")).is_unique_violation());
}

#[test]
fn messages_are_formatted() {
    assert_eq!(format_error_message("create goods", "bad input"), "create goods: bad input");
    assert_eq!(format_success_message("Goods search", 0), "No items found for Goods search");
    assert_eq!(format_success_message("Goods creation", 1), "Goods creation completed successfully");
    assert_eq!(format_success_message("Goods update", 12), "Goods update completed successfully for 12 items");
    let db = |code: Option<&str>| StoreError::Database { code: code.map(|c| c.to_string()) };
    assert_eq!(format_database_error(&StoreError::RowNotFound, "goods search"), "No records found for goods search");
    assert_eq!(format_database_error(&db(Some("23503")), "x"), "Cannot perform operation due to foreign key constraint");
    assert_eq!(format_database_error(&db(Some("23505")), "x"), "Record already exists");
    assert_eq!(format_database_error(&db(Some("23514")), "x"), "Data validation failed");
    assert_eq!(format_database_error(&db(Some("99999")), "goods update"), "Database error during goods update");
    assert_eq!(format_database_error(&db(None), "goods update"), "Database error during goods update");
    assert_eq!(format_database_error(&StoreError::Other, "goods update"), "Internal error during goods update");
}

#[test]
fn pagination_caps_the_page_size() {
    let none = PaginationParams::new();
    assert_eq!((none.page(), none.per_page(), none.offset(), none.limit()), (1, 50, 0, 50));
    let p = PaginationParams { page: Some(3), per_page: Some(5000) };
    assert_eq!((p.page(), p.per_page(), p.offset(), p.limit()), (3, 1000, 2000, 1000));
    let p = PaginationParams { page: Some(0), per_page: Some(10) };
    assert_eq!(p.offset(), 0);
    let p = PaginationParams { page: Some(4294968), per_page: Some(1000) };
    assert_eq!(p.offset(), 4294967000);
}

#[test]
fn paginated_response_counts_pages_rounding_up() {
    let p = PaginationParams { page: Some(2), per_page: Some(10) };
    let r = PaginatedResponse::new(vec![1, 2, 3], &p, Some(21));
    assert_eq!((r.page, r.per_page, r.total_count, r.total_pages), (2, 10, Some(21), Some(3)));
    assert_eq!(r.data, vec![1, 2, 3]);
    assert_eq!(PaginatedResponse::new(Vec::<i32>::new(), &p, Some(20)).total_pages, Some(2));
    assert_eq!(PaginatedResponse::new(Vec::<i32>::new(), &p, Some(0)).total_pages, Some(0));
    assert_eq!(PaginatedResponse::new(Vec::<i32>::new(), &p, None).total_pages, None);
    let zero = PaginationParams { page: None, per_page: Some(0) };
    assert_eq!(PaginatedResponse::new(Vec::<i32>::new(), &zero, Some(5)).total_pages, Some(u32::MAX));
    assert_eq!(PaginatedResponse::new(Vec::<i32>::new(), &zero, Some(0)).total_pages, Some(0));
    let one = PaginationParams { page: None, per_page: Some(1) };
    assert_eq!(PaginatedResponse::new(Vec::<i32>::new(), &one, Some(u64::MAX)).total_pages, Some(u32::MAX));
}

#[test]
fn paginated_response_agrees_with_floating_point() {
    for (count, per_page) in [(0u64, 50u32), (1, 50), (50, 50), (51, 50), (999_999, 1000), (4_294_967_295_000, 1000), (123_456_789, 7)] {
        let p = PaginationParams { page: None, per_page: Some(per_page) };
        let expected = ((count as f64) / (p.per_page() as f64)).ceil() as u32;
        assert_eq!(PaginatedResponse::new(Vec::<i32>::new(), &p, Some(count)).total_pages, Some(expected));
    }
}

#[test]
fn query_builder_numbers_its_placeholders() {
    let mut b = SearchQueryBuilder::new("SELECT * FROM goods WHERE 1=1".to_string());
    assert_eq!(b.bind_count(), 0);
    assert_eq!(b.add_condition("goods_id = ?"), 1);
    assert_eq!(b.add_optional_condition("price >= ?", &Some(5)), Some(2));
    assert_eq!(b.add_optional_condition("price <= ?", &None::<i32>), None);
    assert_eq!(b.add_condition("? < mass_g AND mass_g < ?"), 3);
    assert_eq!(b.bind_count(), 3);
    assert_eq!(
        b.build(Some("goods_id ASC")),
        "SELECT * FROM goods WHERE 1=1 AND goods_id = $1 AND price >= $2 AND $3 < mass_g AND mass_g < $3 ORDER BY goods_id ASC"
    );
    let b = SearchQueryBuilder::new("SELECT 1".to_string());
    assert_eq!(b.build(None), "SELECT 1");
}
