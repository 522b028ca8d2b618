use goods_inventory::endpoints::{
    batch_failure_message, failure_message, failure_status, goods_filter, inventory_filter,
    missing_parameters_message, operation, Action, Entity,
};
use goods_inventory::error::ErrorKind;
use goods_inventory::flow::Batch;
use goods_inventory::request::{extract_goods_query_params, extract_inventory_query_params};

fn pairs(items: &[(&str, &str)]) -> Vec<(String, String)> {
    items.iter().map(|(k, v)| (k.to_string(), v.to_string())).collect()
}

#[test]
fn a_request_without_parameters_is_refused() {
    let none = extract_goods_query_params(&pairs(&[("page", "1")]));
    assert_eq!(
        goods_filter(Action::Update, none.clone()),
        Err("Query parameters required to specify which goods to update".to_string())
    );
    assert_eq!(
        goods_filter(Action::Delete, none.clone()),
        Err("Query parameters required to specify which goods to delete".to_string())
    );
    assert!(goods_filter(Action::Search, none).unwrap_err().starts_with("Query parameters required. Use goods_name=*"));
    let none = extract_inventory_query_params(&pairs(&[]));
    assert_eq!(
        inventory_filter(Action::Update, none.clone()),
        Err("Query parameters required to specify which inventory items to update".to_string())
    );
    assert_eq!(
        inventory_filter(Action::Delete, none.clone()),
        Err("Query parameters required to specify which inventory items to delete".to_string())
    );
    assert!(inventory_filter(Action::Search, none).unwrap_err().contains("to get all inventory"));
    assert_eq!(missing_parameters_message(Entity::Goods, Action::Create), missing_parameters_message(Entity::Goods, Action::Search));
}

#[test]
fn wrong_parameters_are_named() {
    let q = extract_goods_query_params(&pairs(&[("goods_id", "abc")]));
    assert_eq!(goods_filter(Action::Search, q), Err("Invalid query parameters: Invalid goods_id format".to_string()));
    let q = extract_inventory_query_params(&pairs(&[("quantity", "1"), ("goods_name", "x;y")]));
    assert_eq!(inventory_filter(Action::Delete, q), Err("Invalid query parameters: Invalid goods_name".to_string()));
    let q = extract_goods_query_params(&pairs(&[("goods_id", "5"), ("goods_name", "*")]));
    let p = goods_filter(Action::Search, q).unwrap();
    assert_eq!(p.goods_id, Some(5));
    assert!(p.is_get_all());
    let q = extract_inventory_query_params(&pairs(&[("min_quantity", "2")]));
    assert_eq!(inventory_filter(Action::Update, q).unwrap().min_quantity, Some(2));
}

#[test]
fn failures_have_a_status_and_a_message() {
    assert_eq!(failure_status(ErrorKind::InvalidInput), 400);
    assert_eq!(failure_status(ErrorKind::NotFound), 400);
    assert_eq!(failure_status(ErrorKind::ReferentialBlock), 400);
    assert_eq!(failure_status(ErrorKind::Conflict), 500);
    assert_eq!(failure_status(ErrorKind::StoreFailure), 500);
    assert_eq!(operation(Entity::Goods, Action::Create), "goods creation");
    assert_eq!(operation(Entity::Inventory, Action::Delete), "inventory deletion");
    assert_eq!(operation(Entity::Inventory, Action::Search), "inventory search");
    assert_eq!(operation(Entity::Goods, Action::Update), "goods update");
    assert_eq!(failure_message(ErrorKind::NotFound, Entity::Goods, Action::Update), "No goods found to update");
    assert_eq!(failure_message(ErrorKind::NotFound, Entity::Goods, Action::Delete), "No goods found to delete");
    assert_eq!(failure_message(ErrorKind::NotFound, Entity::Goods, Action::Search), "No records found for goods search");
    assert_eq!(failure_message(ErrorKind::NotFound, Entity::Inventory, Action::Update), "No inventory items found to update");
    assert_eq!(failure_message(ErrorKind::NotFound, Entity::Inventory, Action::Delete), "No inventory items found to delete");
    assert_eq!(
        failure_message(ErrorKind::NotFound, Entity::Inventory, Action::Create),
        "Referenced goods not found. Please provide valid goods_id, material_code, or complete goods information."
    );
    assert_eq!(failure_message(ErrorKind::Conflict, Entity::Goods, Action::Create), "Record already exists");
    assert_eq!(
        failure_message(ErrorKind::ReferentialBlock, Entity::Goods, Action::Delete),
        "Cannot perform operation due to foreign key constraint"
    );
    assert_eq!(failure_message(ErrorKind::StoreFailure, Entity::Inventory, Action::Update), "Internal error during inventory update");
    assert_eq!(failure_message(ErrorKind::InvalidInput, Entity::Goods, Action::Update), "Invalid input for goods update");
}

#[test]
fn a_batch_gives_its_first_product_or_its_failure() {
    assert_eq!(Batch { completed: vec![7, 8], failure: None }.single(), Ok(Some(7)));
    assert_eq!(Batch { completed: Vec::<i32>::new(), failure: None }.single(), Ok(None));
    assert_eq!(Batch { completed: vec![7], failure: Some(ErrorKind::Conflict) }.single(), Err(ErrorKind::Conflict));
    assert_eq!(Batch { completed: vec![7], failure: None }.required(), Ok(7));
    assert_eq!(Batch { completed: Vec::<i32>::new(), failure: None }.required(), Err(ErrorKind::StoreFailure));
    assert_eq!(Batch { completed: Vec::<i32>::new(), failure: Some(ErrorKind::NotFound) }.required(), Err(ErrorKind::NotFound));
}

#[test]
fn a_failed_batch_says_what_was_completed() {
    assert_eq!(batch_failure_message(ErrorKind::Conflict, Entity::Goods, Action::Update, 0), "Record already exists");
    assert_eq!(
        batch_failure_message(ErrorKind::Conflict, Entity::Goods, Action::Update, 12),
        "Record already exists (completed before the failure: 12)"
    );
}
