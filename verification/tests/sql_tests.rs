use goods_inventory::datetime::Timestamp;
use goods_inventory::decimal::Decimal;
use goods_inventory::goods_table::{
    delete_good_statement, good_by_id_statement, good_by_material_code_statement, CreateGoodRequest,
    GoodsSearchParams, UpdateGoodRequest,
};
use goods_inventory::inventory_table::{
    delete_item_statement, insert_item_statement, inventory_by_item_id_statement,
    item_by_key_statement, update_item_statement, InventorySearchParams,
};
use goods_inventory::sql::{Column, CompiledFilter, Operator, SqlType, Value};
use goods_inventory::store::Request;

const GOODS_COLUMNS: &str =
    "goods_id, material_code, goods_name, description, price, volumn_l, mass_g, mass_base, volumn_base";

fn dec(mantissa: i128, scale: u32) -> Decimal {
    Decimal { mantissa, scale }
}

fn full_goods_filter() -> GoodsSearchParams {
    GoodsSearchParams {
        goods_id: Some(1),
        material_code: Some("MC_1".to_string()),
        goods_name: Some("50%".to_string()),
        price: Some(dec(1, 0)),
        volumn_l: Some(dec(2, 0)),
        mass_g: Some(dec(3, 0)),
        min_volumn_l: Some(dec(4, 0)),
        max_volumn_l: Some(dec(5, 0)),
        min_mass_g: Some(dec(6, 0)),
        max_mass_g: Some(dec(7, 0)),
        min_price: Some(dec(8, 0)),
        max_price: Some(dec(9, 0)),
    }
}

#[test]
fn empty_filter_compiles_to_no_condition() {
    let p = GoodsSearchParams::new();
    assert!(!p.is_get_all());
    assert!(p.has_no_field());
    let c = p.compile();
    assert!(c.conditions.is_empty());
    assert!(c.binds.is_empty());
    let s = p.statement();
    assert_eq!(s.sql, format!("SELECT {} FROM goods WHERE 1=1 ORDER BY goods_id ASC", GOODS_COLUMNS));
    assert!(s.binds.is_empty());
}

#[test]
fn goods_conditions_and_values_stand_in_the_fixed_order() {
    let c = full_goods_filter().compile();
    assert_eq!(
        c.conditions,
        vec![
            " AND goods_id = $1",
            " AND material_code ILIKE $2",
            " AND goods_name ILIKE $3",
            " AND price = $4",
            " AND volumn_l = $5",
            " AND mass_g = $6",
            " AND volumn_l >= $7",
            " AND volumn_l <= $8",
            " AND mass_g >= $9",
            " AND mass_g <= $10",
            " AND price >= $11",
            " AND price <= $12",
        ]
    );
    assert_eq!(
        c.binds,
        vec![
            Value::Int(1),
            Value::Text("%MC\\_1%".to_string()),
            Value::Text("%50\\%%".to_string()),
            Value::Decimal(dec(1, 0)),
            Value::Decimal(dec(2, 0)),
            Value::Decimal(dec(3, 0)),
            Value::Decimal(dec(4, 0)),
            Value::Decimal(dec(5, 0)),
            Value::Decimal(dec(6, 0)),
            Value::Decimal(dec(7, 0)),
            Value::Decimal(dec(8, 0)),
            Value::Decimal(dec(9, 0)),
        ]
    );
}

#[test]
fn conditions_and_values_have_equal_length_for_every_choice_of_fields() {
    for mask in 0u32..4096 {
        let on = |bit: u32| mask & (1 << bit) != 0;
        let p = GoodsSearchParams {
            goods_id: if on(0) { Some(7) } else { None },
            material_code: if on(1) { Some("a".to_string()) } else { None },
            goods_name: if on(2) { Some("b".to_string()) } else { None },
            price: if on(3) { Some(dec(1, 0)) } else { None },
            volumn_l: if on(4) { Some(dec(2, 0)) } else { None },
            mass_g: if on(5) { Some(dec(3, 0)) } else { None },
            min_volumn_l: if on(6) { Some(dec(4, 0)) } else { None },
            max_volumn_l: if on(7) { Some(dec(5, 0)) } else { None },
            min_mass_g: if on(8) { Some(dec(6, 0)) } else { None },
            max_mass_g: if on(9) { Some(dec(7, 0)) } else { None },
            min_price: if on(10) { Some(dec(8, 0)) } else { None },
            max_price: if on(11) { Some(dec(9, 0)) } else { None },
        };
        let c = p.compile();
        assert_eq!(c.conditions.len(), mask.count_ones() as usize);
        assert_eq!(c.binds.len(), c.conditions.len());
        for (i, condition) in c.conditions.iter().enumerate() {
            assert!(condition.ends_with(&format!("${}", i + 1)), "{}", condition);
            let decimal = matches!(c.binds[i], Value::Decimal(_));
            let text = matches!(c.binds[i], Value::Text(_));
            assert_eq!(condition.contains("ILIKE"), text);
            assert_eq!(condition.contains("price") || condition.contains("volumn") || condition.contains("mass"), decimal);
        }
        let s = p.statement();
        assert_eq!(s.binds, c.binds);
        assert_eq!(s.sql.matches('$').count(), c.binds.len());
    }
}

#[test]
fn statement_text_does_not_depend_on_values() {
    let a = full_goods_filter();
    let mut b = full_goods_filter();
    b.goods_id = Some(99);
    b.material_code = Some("'; DROP TABLE goods; --".to_string());
    b.goods_name = Some("x".to_string());
    b.max_price = Some(dec(-5, 3));
    assert_eq!(a.statement().sql, b.statement().sql);
    assert!(!b.statement().sql.contains("DROP"));
    assert_eq!(b.statement().binds[1], Value::Text("%'; DROP TABLE goods; --%".to_string()));
}

#[test]
fn wildcard_on_either_text_field_is_the_plain_scan() {
    let scan = format!("SELECT {} FROM goods ORDER BY goods_id ASC", GOODS_COLUMNS);
    let mut p = full_goods_filter();
    p.goods_name = Some("*".to_string());
    assert!(p.is_get_all());
    assert_eq!(p.statement().sql, scan);
    assert!(p.statement().binds.is_empty());
    let mut q = GoodsSearchParams::new();
    q.material_code = Some("*".to_string());
    assert!(q.is_get_all());
    assert_eq!(q.statement().sql, scan);
    let mut r = GoodsSearchParams::new();
    r.material_code = Some("**".to_string());
    assert!(!r.is_get_all());
}

#[test]
fn inventory_conditions_come_before_those_of_the_good() {
    let t = Timestamp { secs: 10, nanos: 0 };
    let p = InventorySearchParams {
        item_id: Some(1),
        quantity: Some(2),
        min_quantity: Some(3),
        max_quantity: Some(4),
        expired_date: Some(t),
        min_expired_date: Some(t),
        max_expired_date: Some(t),
        goods_params: GoodsSearchParams { goods_id: Some(5), min_price: Some(dec(6, 0)), ..GoodsSearchParams::new() },
    };
    let c = p.compile();
    assert_eq!(
        c.conditions,
        vec![
            " AND i.item_id = $1",
            " AND i.quantity = $2",
            " AND i.quantity >= $3",
            " AND i.quantity <= $4",
            " AND i.expired_date = $5",
            " AND i.expired_date >= $6",
            " AND i.expired_date <= $7",
            " AND g.goods_id = $8",
            " AND g.price >= $9",
        ]
    );
    assert_eq!(
        c.binds,
        vec![
            Value::Int(1),
            Value::Int(2),
            Value::Int(3),
            Value::Int(4),
            Value::Timestamp(t),
            Value::Timestamp(t),
            Value::Timestamp(t),
            Value::Int(5),
            Value::Decimal(dec(6, 0)),
        ]
    );
    let s = p.statement();
    assert!(s.sql.starts_with("SELECT i.item_id, i.goods_id, i.quantity, i.expired_date, g.material_code"));
    assert!(s.sql.contains("FROM inventory i INNER JOIN goods g ON i.goods_id = g.goods_id WHERE 1=1 AND i.item_id = $1"));
    assert!(s.sql.ends_with(" AND g.price >= $9 ORDER BY i.item_id ASC"));
}

#[test]
fn inventory_wildcard_is_the_plain_joined_scan() {
    let mut p = InventorySearchParams::new();
    assert!(!p.is_get_all());
    assert!(p.has_no_field());
    p.item_id = Some(3);
    p.goods_params.goods_name = Some("*".to_string());
    assert!(p.is_get_all());
    let s = p.statement();
    assert!(s.sql.ends_with("INNER JOIN goods g ON i.goods_id = g.goods_id ORDER BY i.item_id ASC"));
    assert!(!s.sql.contains("WHERE"));
    assert!(s.binds.is_empty());
}

#[test]
fn a_compiled_filter_numbers_what_is_added() {
    let mut c = CompiledFilter::new();
    c.add(Column::Quantity, true, Operator::AtLeast, Value::Int(3));
    c.add(Column::GoodsName, false, Operator::Matches, Value::Text("%x%".to_string()));
    assert_eq!(c.conditions, vec![" AND i.quantity >= $1", " AND goods_name ILIKE $2"]);
    assert_eq!(c.binds, vec![Value::Int(3), Value::Text("%x%".to_string())]);
    let s = c.into_statement("SELECT 1", " LIMIT 1");
    assert_eq!(s.sql, "SELECT 1 AND i.quantity >= $1 AND goods_name ILIKE $2 LIMIT 1");
}

#[test]
fn insert_statement_binds_the_draft_with_zero_unit_codes() {
    let draft = CreateGoodRequest {
        material_code: "MC1".to_string(),
        goods_name: "Widget".to_string(),
        description: Some(vec!["a".to_string(), "b".to_string()]),
        price: dec(5, 0),
        volumn_l: dec(1, 0),
        mass_g: dec(100, 0),
        mass_base: None,
        volumn_base: Some(2),
    };
    let s = draft.statement();
    assert!(s.sql.starts_with("INSERT INTO goods (material_code, goods_name, description, price, volumn_l, mass_g, mass_base, volumn_base) VALUES ($1, $2, $3, $4, $5, $6, $7, $8) RETURNING goods_id"));
    assert_eq!(
        s.binds,
        vec![
            Value::Text("MC1".to_string()),
            Value::Text("Widget".to_string()),
            Value::TextList(vec!["a".to_string(), "b".to_string()]),
            Value::Decimal(dec(5, 0)),
            Value::Decimal(dec(1, 0)),
            Value::Decimal(dec(100, 0)),
            Value::SmallInt(0),
            Value::SmallInt(2),
        ]
    );
}

#[test]
fn update_statement_binds_nulls_for_absent_fields() {
    let patch = UpdateGoodRequest {
        material_code: None,
        goods_name: Some("New".to_string()),
        description: None,
        price: Some(dec(7, 1)),
        volumn_l: None,
        mass_g: None,
        mass_base: Some(1),
        volumn_base: None,
    };
    assert!(!patch.has_no_field());
    let s = patch.statement(42);
    assert!(s.sql.starts_with("UPDATE goods SET material_code = COALESCE($2, material_code)"));
    assert!(s.sql.contains("WHERE goods_id = $1 RETURNING goods_id"));
    assert_eq!(
        s.binds,
        vec![
            Value::Int(42),
            Value::Null(SqlType::Text),
            Value::Text("New".to_string()),
            Value::Null(SqlType::TextList),
            Value::Decimal(dec(7, 1)),
            Value::Null(SqlType::Decimal),
            Value::Null(SqlType::Decimal),
            Value::SmallInt(1),
            Value::Null(SqlType::SmallInt),
        ]
    );
}

#[test]
fn fixed_statements_bind_their_keys() {
    assert_eq!(good_by_id_statement(3).binds, vec![Value::Int(3)]);
    assert!(good_by_id_statement(3).sql.ends_with("FROM goods WHERE goods_id = $1"));
    assert_eq!(good_by_material_code_statement("MC").binds, vec![Value::Text("MC".to_string())]);
    assert!(good_by_material_code_statement("MC").sql.ends_with("FROM goods WHERE material_code = $1"));
    assert_eq!(delete_good_statement(3).sql, "DELETE FROM goods WHERE goods_id = $1");
    assert_eq!(delete_item_statement(4).sql, "DELETE FROM inventory WHERE item_id = $1");
    assert_eq!(delete_item_statement(4).binds, vec![Value::Int(4)]);
    assert!(inventory_by_item_id_statement(4).sql.ends_with("WHERE i.item_id = $1"));
    let t = Timestamp { secs: 1, nanos: 2 };
    let dated = item_by_key_statement(1, Some(t));
    assert!(dated.sql.ends_with("WHERE goods_id = $1 AND expired_date = $2"));
    assert_eq!(dated.binds, vec![Value::Int(1), Value::Timestamp(t)]);
    let undated = item_by_key_statement(1, None);
    assert!(undated.sql.ends_with("WHERE goods_id = $1 AND expired_date IS NULL"));
    assert_eq!(undated.binds, vec![Value::Int(1)]);
    assert_eq!(insert_item_statement(1, 10, None).binds, vec![Value::Int(1), Value::Int(10), Value::Null(SqlType::Timestamp)]);
    assert_eq!(update_item_statement(9, Some(5), None).binds, vec![Value::Int(9), Value::Int(5), Value::Null(SqlType::Timestamp)]);
    assert_eq!(update_item_statement(9, None, Some(t)).binds, vec![Value::Int(9), Value::Null(SqlType::Int), Value::Timestamp(t)]);
}

#[test]
fn every_request_has_its_statement() {
    let p = GoodsSearchParams::new();
    assert_eq!(Request::SearchGoods(&p).statement(), p.statement());
    assert_eq!(Request::GoodById(1).statement(), good_by_id_statement(1));
    assert_eq!(Request::DeleteGood(1).statement(), delete_good_statement(1));
    assert_eq!(Request::CountInventoryOfGood(2).statement().sql, "SELECT COUNT(*) FROM inventory WHERE goods_id = $1");
    assert_eq!(Request::GoodExists(2).statement().sql, "SELECT EXISTS(SELECT 1 FROM goods WHERE goods_id = $1)");
    let code = "MC".to_string();
    assert_eq!(Request::GoodsIdByMaterialCode(&code).statement().sql, "SELECT goods_id FROM goods WHERE material_code = $1");
    assert_eq!(Request::GoodByMaterialCode(&code).statement(), good_by_material_code_statement("MC"));
    assert_eq!(Request::ItemByKey { goods_id: 1, expired_date: None }.statement(), item_by_key_statement(1, None));
    assert_eq!(Request::InsertItem { goods_id: 1, quantity: 2, expired_date: None }.statement(), insert_item_statement(1, 2, None));
    assert_eq!(Request::UpdateItem { item_id: 1, quantity: Some(2), expired_date: None }.statement(), update_item_statement(1, Some(2), None));
    assert_eq!(Request::DeleteItem(5).statement(), delete_item_statement(5));
    assert_eq!(Request::InventoryByItemId(5).statement(), inventory_by_item_id_statement(5));
    assert_eq!(Request::Begin.statement().sql, "BEGIN");
    assert_eq!(Request::Commit.statement().sql, "COMMIT");
    assert_eq!(Request::Rollback.statement().sql, "ROLLBACK");
    assert!(Request::Rollback.statement().binds.is_empty());
}
