use goods_inventory::datetime::Timestamp;
use goods_inventory::decimal::Decimal;
use goods_inventory::goods_table::{CreateGoodRequest, GoodsSearchParams, UpdateGoodRequest};
use goods_inventory::inventory_table::{CreateInventoryRequest, UpdateInventoryRequest};
use goods_inventory::request::{
    check_amounts, check_description, extract_goods_query_params, extract_inventory_query_params,
    find_param, GoodsQueryParams, InventoryQueryParams,
};

fn dec(mantissa: i128, scale: u32) -> Decimal {
    Decimal { mantissa, scale }
}

fn no_goods_params() -> GoodsQueryParams {
    GoodsQueryParams {
        goods_id: None,
        material_code: None,
        goods_name: None,
        price: None,
        volumn_l: None,
        mass_g: None,
        min_volumn_l: None,
        max_volumn_l: None,
        min_mass_g: None,
        max_mass_g: None,
        min_price: None,
        max_price: None,
    }
}

fn no_inventory_params() -> InventoryQueryParams {
    InventoryQueryParams {
        item_id: None,
        quantity: None,
        min_quantity: None,
        max_quantity: None,
        expired_date: None,
        min_expired_date: None,
        max_expired_date: None,
        goods_id: None,
        material_code: None,
        goods_name: None,
        price: None,
        volumn_l: None,
        mass_g: None,
        min_volumn_l: None,
        max_volumn_l: None,
        min_mass_g: None,
        max_mass_g: None,
        min_price: None,
        max_price: None,
    }
}

fn good_draft() -> CreateGoodRequest {
    CreateGoodRequest {
        material_code: "MC1".to_string(),
        goods_name: "Widget".to_string(),
        description: Some(vec!["small".to_string(), "blue".to_string()]),
        price: dec(5, 0),
        volumn_l: dec(1, 0),
        mass_g: dec(100, 0),
        mass_base: None,
        volumn_base: None,
    }
}

fn no_good_patch() -> UpdateGoodRequest {
    UpdateGoodRequest {
        material_code: None,
        goods_name: None,
        description: None,
        price: None,
        volumn_l: None,
        mass_g: None,
        mass_base: None,
        volumn_base: None,
    }
}

fn no_item_draft() -> CreateInventoryRequest {
    CreateInventoryRequest {
        goods_id: None,
        material_code: None,
        goods_name: None,
        description: None,
        price: None,
        volumn_l: None,
        mass_g: None,
        mass_base: None,
        volumn_base: None,
        quantity: 1,
        expired_date: None,
    }
}

fn no_item_patch() -> UpdateInventoryRequest {
    UpdateInventoryRequest {
        material_code: None,
        goods_name: None,
        description: None,
        price: None,
        volumn_l: None,
        mass_g: None,
        mass_base: None,
        volumn_base: None,
        quantity: None,
        expired_date: None,
    }
}

fn err(message: &str) -> Result<(), String> {
    Err(message.to_string())
}

#[test]
fn has_any_params_sees_every_field() {
    assert!(!no_goods_params().has_any_params());
    assert!(GoodsQueryParams { max_price: Some("1".to_string()), ..no_goods_params() }.has_any_params());
    assert!(GoodsQueryParams { goods_id: Some("1".to_string()), ..no_goods_params() }.has_any_params());
    assert!(!no_inventory_params().has_any_params());
    assert!(InventoryQueryParams { max_expired_date: Some("x".to_string()), ..no_inventory_params() }.has_any_params());
    assert!(InventoryQueryParams { max_price: Some("x".to_string()), ..no_inventory_params() }.has_any_params());
}

#[test]
fn goods_parameters_are_parsed_into_a_filter() {
    let q = GoodsQueryParams {
        goods_id: Some("12".to_string()),
        material_code: Some("MC".to_string()),
        goods_name: Some("*".to_string()),
        price: Some("10.00".to_string()),
        min_price: Some("-1".to_string()),
        ..no_goods_params()
    };
    let p = q.validate_and_parse().unwrap();
    assert_eq!(
        p,
        GoodsSearchParams {
            goods_id: Some(12),
            material_code: Some("MC".to_string()),
            goods_name: Some("*".to_string()),
            price: Some(dec(1000, 2)),
            min_price: Some(dec(-1, 0)),
            ..GoodsSearchParams::new()
        }
    );
    assert_eq!(no_goods_params().validate_and_parse(), Ok(GoodsSearchParams::new()));
}

#[test]
fn the_first_wrong_goods_parameter_decides_the_error() {
    let q = GoodsQueryParams {
        goods_id: Some("1x".to_string()),
        material_code: Some("a;b".to_string()),
        ..no_goods_params()
    };
    assert_eq!(q.validate_and_parse(), Err("Invalid goods_id format".to_string()));
    let q = GoodsQueryParams {
        material_code: Some("a;b".to_string()),
        price: Some("x".to_string()),
        ..no_goods_params()
    };
    assert_eq!(q.validate_and_parse(), Err("Invalid material_code".to_string()));
    let q = GoodsQueryParams { goods_name: Some("".to_string()), ..no_goods_params() };
    assert_eq!(q.validate_and_parse(), Err("goods_name cannot be empty".to_string()));
    let q = GoodsQueryParams {
        max_mass_g: Some("1-".to_string()),
        max_price: Some("x".to_string()),
        ..no_goods_params()
    };
    assert_eq!(q.validate_and_parse(), Err("Invalid decimal format for max_mass_g".to_string()));
    let q = GoodsQueryParams { max_price: Some("x".to_string()), ..no_goods_params() };
    assert_eq!(q.validate_and_parse(), Err("Invalid max_price format".to_string()));
}

#[test]
fn inventory_parameters_are_parsed_into_a_filter() {
    let q = InventoryQueryParams {
        item_id: Some("3".to_string()),
        min_quantity: Some("0".to_string()),
        expired_date: Some("2024-12-31T23:59:59Z".to_string()),
        goods_id: Some("9".to_string()),
        ..no_inventory_params()
    };
    let p = q.validate_and_parse().unwrap();
    assert_eq!(p.item_id, Some(3));
    assert_eq!(p.min_quantity, Some(0));
    assert_eq!(p.expired_date, Some(Timestamp { secs: 1735689599, nanos: 0 }));
    assert_eq!(p.goods_params.goods_id, Some(9));
    assert_eq!(p.quantity, None);
    let q = InventoryQueryParams {
        max_expired_date: Some("2024-12-31".to_string()),
        goods_id: Some("x".to_string()),
        ..no_inventory_params()
    };
    assert_eq!(
        q.validate_and_parse(),
        Err("Invalid datetime format for max_expired_date. Use ISO 8601 format (e.g., 2024-12-31T23:59:59Z)".to_string())
    );
    let q = InventoryQueryParams { goods_id: Some("x".to_string()), ..no_inventory_params() };
    assert_eq!(q.validate_and_parse(), Err("Invalid goods_id format".to_string()));
    let q = InventoryQueryParams { quantity: Some("9999999999".to_string()), ..no_inventory_params() };
    assert_eq!(q.validate_and_parse(), Err("Invalid integer format for quantity".to_string()));
}

#[test]
fn create_good_is_validated_field_by_field() {
    assert_eq!(good_draft().validate(), Ok(()));
    assert_eq!(CreateGoodRequest { material_code: "".to_string(), ..good_draft() }.validate(), err("material_code cannot be empty"));
    assert_eq!(CreateGoodRequest { goods_name: "a'b".to_string(), ..good_draft() }.validate(), err("Invalid goods_name"));
    let d = CreateGoodRequest { description: Some(vec!["ok".to_string(), "".to_string()]), ..good_draft() };
    assert_eq!(d.validate(), err("description[1] cannot be empty"));
    let d = CreateGoodRequest { description: Some(vec!["drop it".to_string()]), ..good_draft() };
    assert_eq!(d.validate(), err("Invalid description[0]"));
    assert_eq!(CreateGoodRequest { price: dec(-1, 2), ..good_draft() }.validate(), err("Price cannot be negative"));
    assert_eq!(CreateGoodRequest { price: dec(0, 0), ..good_draft() }.validate(), Ok(()));
    assert_eq!(CreateGoodRequest { volumn_l: dec(0, 0), ..good_draft() }.validate(), err("Volume must be positive"));
    assert_eq!(CreateGoodRequest { mass_g: dec(0, 3), ..good_draft() }.validate(), err("Mass must be positive"));
    let d = CreateGoodRequest { price: dec(-1, 0), volumn_l: dec(-1, 0), ..good_draft() };
    assert_eq!(d.validate(), err("Price cannot be negative"));
}

#[test]
fn description_lines_are_numbered_from_zero() {
    let mut lines: Vec<String> = (0..12).map(|_| "fine".to_string()).collect();
    lines[11] = "a;b".to_string();
    assert_eq!(check_description(&Some(lines)), err("Invalid description[11]"));
    assert_eq!(check_description(&None), Ok(()));
    assert_eq!(check_description(&Some(vec![])), Ok(()));
    assert_eq!(check_amounts(None, None, None), Ok(()));
    assert_eq!(check_amounts(None, Some(dec(-1, 0)), Some(dec(0, 0))), err("Volume must be positive"));
}

#[test]
fn update_good_needs_a_field() {
    assert_eq!(no_good_patch().validate(), err("At least one field must be provided for update"));
    assert_eq!(UpdateGoodRequest { mass_base: Some(1), ..no_good_patch() }.validate(), Ok(()));
    assert_eq!(UpdateGoodRequest { goods_name: Some("x--y".to_string()), ..no_good_patch() }.validate(), err("Invalid goods_name"));
    assert_eq!(UpdateGoodRequest { price: Some(dec(-1, 0)), ..no_good_patch() }.validate(), err("Price cannot be negative"));
    assert_eq!(UpdateGoodRequest { volumn_l: Some(dec(0, 0)), ..no_good_patch() }.validate(), err("Volume must be positive"));
    assert_eq!(UpdateGoodRequest { mass_g: Some(dec(-3, 0)), ..no_good_patch() }.validate(), err("Mass must be positive"));
}

#[test]
fn create_inventory_needs_a_way_to_the_good() {
    let message = "Either goods_id, material_code, or complete goods information (goods_name, price, volumn_l, mass_g) is required";
    assert_eq!(no_item_draft().validate(), err(message));
    let partly = CreateInventoryRequest { goods_name: Some("W".to_string()), price: Some(dec(1, 0)), ..no_item_draft() };
    assert_eq!(partly.validate(), err(message));
    assert_eq!(CreateInventoryRequest { goods_id: Some(1), ..no_item_draft() }.validate(), Ok(()));
    assert_eq!(CreateInventoryRequest { material_code: Some("MC".to_string()), ..no_item_draft() }.validate(), Ok(()));
    let full = CreateInventoryRequest {
        goods_name: Some("W".to_string()),
        price: Some(dec(1, 0)),
        volumn_l: Some(dec(1, 0)),
        mass_g: Some(dec(1, 0)),
        ..no_item_draft()
    };
    assert_eq!(full.validate(), Ok(()));
    assert_eq!(CreateInventoryRequest { goods_id: Some(1), quantity: -1, ..no_item_draft() }.validate(), err("Quantity cannot be negative"));
    let d = CreateInventoryRequest { goods_id: Some(1), quantity: -1, material_code: Some(";".to_string()), ..no_item_draft() };
    assert_eq!(d.validate(), err("Quantity cannot be negative"));
    assert_eq!(CreateInventoryRequest { goods_id: Some(1), material_code: Some(";".to_string()), ..no_item_draft() }.validate(), err("Invalid material_code"));
    assert_eq!(CreateInventoryRequest { goods_id: Some(1), mass_g: Some(dec(0, 0)), ..no_item_draft() }.validate(), err("Mass must be positive"));
}

#[test]
fn update_inventory_checks_the_quantity_last() {
    assert_eq!(no_item_patch().validate(), err("At least one field must be provided for update"));
    assert_eq!(UpdateInventoryRequest { quantity: Some(0), ..no_item_patch() }.validate(), Ok(()));
    assert_eq!(UpdateInventoryRequest { expired_date: Some(Timestamp { secs: 0, nanos: 0 }), ..no_item_patch() }.validate(), Ok(()));
    assert_eq!(UpdateInventoryRequest { quantity: Some(-1), ..no_item_patch() }.validate(), err("Quantity cannot be negative"));
    let p = UpdateInventoryRequest { quantity: Some(-1), price: Some(dec(-1, 0)), ..no_item_patch() };
    assert_eq!(p.validate(), err("Price cannot be negative"));
    let p = UpdateInventoryRequest { description: Some(vec!["select".to_string()]), ..no_item_patch() };
    assert_eq!(p.validate(), err("Invalid description[0]"));
}

#[test]
fn query_parameters_are_picked_by_name() {
    let pairs = vec![
        ("goods_id".to_string(), "1".to_string()),
        ("unknown".to_string(), "x".to_string()),
        ("max_price".to_string(), "9.5".to_string()),
        ("goods_id".to_string(), "2".to_string()),
        ("item_id".to_string(), "7".to_string()),
    ];
    assert_eq!(find_param(&pairs, "goods_id"), Some("2".to_string()));
    assert_eq!(find_param(&pairs, "price"), None);
    let g = extract_goods_query_params(&pairs);
    assert_eq!(g, GoodsQueryParams { goods_id: Some("2".to_string()), max_price: Some("9.5".to_string()), ..no_goods_params() });
    let i = extract_inventory_query_params(&pairs);
    assert_eq!(
        i,
        InventoryQueryParams {
            item_id: Some("7".to_string()),
            goods_id: Some("2".to_string()),
            max_price: Some("9.5".to_string()),
            ..no_inventory_params()
        }
    );
    assert_eq!(extract_goods_query_params(&vec![]), no_goods_params());
}
