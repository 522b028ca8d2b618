use goods_inventory::datetime::Timestamp;
use goods_inventory::decimal::Decimal;
use goods_inventory::error::{ErrorKind, StoreError};
use goods_inventory::flow::{Batch, Flow};
use goods_inventory::goods_flow::{GoodsInsert, GoodsTable};
use goods_inventory::goods_table::{CreateGoodRequest, Good, GoodsSearchParams, UpdateGoodRequest};
use goods_inventory::inventory_flow::{InventoryInsert, InventoryTable, StockedItem};
use goods_inventory::inventory_table::{
    CreateInventoryRequest, InventoryItem, InventoryItemWithGoods, InventorySearchParams,
    UpdateInventoryRequest,
};
use goods_inventory::memory_store::MemoryStore;
use goods_inventory::store::{Reply, Request, Step};

fn dec(mantissa: i128, scale: u32) -> Decimal {
    Decimal { mantissa, scale }
}

fn now() -> Timestamp {
    Timestamp { secs: 1_700_000_000, nanos: 0 }
}

fn draft(code: &str, name: &str, price: i128) -> CreateGoodRequest {
    CreateGoodRequest {
        material_code: code.to_string(),
        goods_name: name.to_string(),
        description: None,
        price: dec(price, 0),
        volumn_l: dec(1, 0),
        mass_g: dec(100, 0),
        mass_base: None,
        volumn_base: None,
    }
}

fn lot(goods_id: i32, quantity: i32, expired_date: Option<Timestamp>) -> CreateInventoryRequest {
    CreateInventoryRequest {
        goods_id: Some(goods_id),
        material_code: None,
        goods_name: None,
        description: None,
        price: None,
        volumn_l: None,
        mass_g: None,
        mass_base: None,
        volumn_base: None,
        quantity,
        expired_date,
    }
}

fn no_patch() -> UpdateInventoryRequest {
    UpdateInventoryRequest {
        material_code: None,
        goods_name: None,
        description: None,
        price: None,
        volumn_l: None,
        mass_g: None,
        mass_base: None,
        volumn_base: None,
        quantity: None,
        expired_date: None,
    }
}

fn no_good_patch() -> UpdateGoodRequest {
    UpdateGoodRequest {
        material_code: None,
        goods_name: None,
        description: None,
        price: None,
        volumn_l: None,
        mass_g: None,
        mass_base: None,
        volumn_base: None,
    }
}

fn by_goods_id(id: i32) -> GoodsSearchParams {
    GoodsSearchParams { goods_id: Some(id), ..GoodsSearchParams::new() }
}

fn all_goods() -> GoodsSearchParams {
    GoodsSearchParams { goods_name: Some("*".to_string()), ..GoodsSearchParams::new() }
}

fn all_inventory() -> InventorySearchParams {
    InventorySearchParams { goods_params: all_goods(), ..InventorySearchParams::new() }
}

fn one<T>(batch: Batch<T>) -> T {
    assert_eq!(batch.failure, None);
    let mut completed = batch.completed;
    assert_eq!(completed.len(), 1);
    completed.remove(0)
}

fn failure<T>(batch: Batch<T>) -> ErrorKind {
    assert!(batch.completed.is_empty());
    batch.failure.unwrap()
}

fn insert_good(store: &mut MemoryStore, d: CreateGoodRequest) -> (Good, bool) {
    let inserted = one(store.run(GoodsTable::new().insert(d)));
    (inserted.good, inserted.created)
}

fn insert_lot(store: &mut MemoryStore, r: CreateInventoryRequest) -> StockedItem {
    one(store.run(InventoryTable::new().insert(r, now())))
}

fn search_goods(store: &mut MemoryStore, p: GoodsSearchParams) -> Vec<Good> {
    one(store.run(GoodsTable::new().search(p)))
}

fn search_inventory(store: &mut MemoryStore, p: InventorySearchParams) -> Vec<InventoryItemWithGoods> {
    one(store.run(InventoryTable::new().search(p)))
}

fn ids(goods: &[Good]) -> Vec<i32> {
    goods.iter().map(|g| g.goods_id).collect()
}

#[test]
fn create_good_then_stock_it_twice() {
    let mut store = MemoryStore::new();
    let (good, created) = insert_good(&mut store, draft("MC1", "Widget", 5));
    assert_eq!(good.goods_id, 1);
    assert!(created);
    assert_eq!(good.material_code, "MC1");
    assert_eq!(good.goods_name, "Widget");
    assert_eq!((good.price, good.volumn_l, good.mass_g), (dec(5, 0), dec(1, 0), dec(100, 0)));
    assert_eq!((good.mass_base, good.volumn_base), (0, 0));

    let first = insert_lot(&mut store, lot(1, 10, None));
    assert_eq!(first.item.item_id, 1);
    assert!(first.was_created);
    assert_eq!(first.item.quantity, 10);
    assert_eq!(first.item.goods_id, 1);
    assert_eq!(first.item.goods_name, "Widget");
    assert!(!first.already_expired);

    let again = insert_lot(&mut store, lot(1, 10, None));
    assert_eq!(again.item.item_id, 1);
    assert!(!again.was_created);
    assert_eq!(again.item.quantity, 10);
}

#[test]
fn inserting_a_good_twice_gives_the_first_row() {
    let mut store = MemoryStore::new();
    let (first, created) = insert_good(&mut store, draft("MC1", "Widget", 5));
    assert!(created);
    let (second, created_again) = insert_good(&mut store, draft("MC1", "Gadget", 99));
    assert!(!created_again);
    assert_eq!(second, first);
    assert_eq!(second.goods_name, "Widget");
    let (other, created_other) = insert_good(&mut store, draft("MC2", "Gadget", 99));
    assert!(created_other);
    assert_eq!(other.goods_id, 2);
    assert_eq!(ids(&search_goods(&mut store, all_goods())), vec![1, 2]);
}

#[test]
fn lots_are_told_apart_by_their_expiry_date() {
    let mut store = MemoryStore::new();
    insert_good(&mut store, draft("MC1", "Widget", 5));
    let t = Timestamp { secs: 1_800_000_000, nanos: 0 };
    let undated = insert_lot(&mut store, lot(1, 10, None));
    let dated = insert_lot(&mut store, lot(1, 3, Some(t)));
    assert!(dated.was_created);
    assert_ne!(dated.item.item_id, undated.item.item_id);
    assert_eq!(dated.item.expired_date, Some(t));
    let undated_again = insert_lot(&mut store, lot(1, 77, None));
    assert_eq!(undated_again.item.item_id, undated.item.item_id);
    assert_eq!(undated_again.item.quantity, 10);
    assert!(!undated_again.was_created);
    let dated_again = insert_lot(&mut store, lot(1, 77, Some(t)));
    assert_eq!(dated_again.item.item_id, dated.item.item_id);
    assert_eq!(dated_again.item.quantity, 3);
    let other = insert_lot(&mut store, lot(1, 1, Some(Timestamp { secs: 1_800_000_000, nanos: 1 })));
    assert!(other.was_created);
    assert_eq!(other.item.item_id, 3);
}

#[test]
fn a_lot_whose_date_has_passed_is_flagged() {
    let mut store = MemoryStore::new();
    insert_good(&mut store, draft("MC1", "Widget", 5));
    let past = insert_lot(&mut store, lot(1, 1, Some(Timestamp { secs: 1_600_000_000, nanos: 0 })));
    assert!(past.already_expired);
    assert!(past.was_created);
    let at_now = insert_lot(&mut store, lot(1, 1, Some(now())));
    assert!(!at_now.already_expired);
}

#[test]
fn the_good_of_a_lot_is_settled_in_three_ways() {
    let mut store = MemoryStore::new();
    insert_good(&mut store, draft("MC1", "Widget", 5));
    let table = InventoryTable::new();
    assert_eq!(failure(store.run(table.insert(lot(9, 1, None), now()))), ErrorKind::NotFound);
    let by_code = CreateInventoryRequest { goods_id: None, material_code: Some("MC1".to_string()), ..lot(0, 4, None) };
    let stocked = insert_lot(&mut store, by_code);
    assert_eq!(stocked.item.goods_id, 1);
    let missing_code = CreateInventoryRequest { goods_id: None, material_code: Some("nope".to_string()), ..lot(0, 4, None) };
    assert_eq!(failure(store.run(table.insert(missing_code, now()))), ErrorKind::NotFound);
    let key_wins = CreateInventoryRequest { goods_id: Some(9), material_code: Some("MC1".to_string()), ..lot(0, 4, None) };
    assert_eq!(failure(store.run(table.insert(key_wins, now()))), ErrorKind::NotFound);
    let described = CreateInventoryRequest {
        goods_id: None,
        goods_name: Some("Gadget".to_string()),
        price: Some(dec(2, 0)),
        volumn_l: Some(dec(3, 0)),
        mass_g: Some(dec(4, 0)),
        mass_base: Some(1),
        ..lot(0, 6, None)
    };
    let created = insert_lot(&mut store, described);
    assert!(created.was_created);
    assert_eq!(created.item.goods_id, 2);
    assert_eq!(created.item.goods_name, "Gadget");
    assert_eq!(created.item.material_code, "");
    assert_eq!(created.item.mass_base, 1);
    assert_eq!(created.item.quantity, 6);
    let nothing = CreateInventoryRequest { goods_id: None, goods_name: Some("x".to_string()), ..lot(0, 1, None) };
    assert_eq!(failure(store.run(table.insert(nothing, now()))), ErrorKind::NotFound);
    assert_eq!(ids(&search_goods(&mut store, all_goods())), vec![1, 2]);
}

#[test]
fn deleting_a_good_with_inventory_is_blocked_and_nothing_goes() {
    let mut store = MemoryStore::new();
    insert_good(&mut store, draft("A", "First", 1));
    insert_good(&mut store, draft("B", "Second", 2));
    insert_good(&mut store, draft("C", "Third", 3));
    insert_lot(&mut store, lot(2, 5, None));
    let table = GoodsTable::new();
    let blocked = store.run(table.delete(all_goods()));
    assert_eq!(failure(blocked), ErrorKind::ReferentialBlock);
    assert_eq!(ids(&search_goods(&mut store, all_goods())), vec![1, 2, 3]);
    assert_eq!(failure(store.run(table.delete(by_goods_id(2)))), ErrorKind::ReferentialBlock);
    let deleted = one(store.run(table.delete(by_goods_id(1))));
    assert_eq!(ids(&deleted), vec![1]);
    assert_eq!(ids(&search_goods(&mut store, all_goods())), vec![2, 3]);
    assert_eq!(failure(store.run(table.delete(by_goods_id(1)))), ErrorKind::NotFound);
    assert_eq!(failure(store.run(table.delete(GoodsSearchParams::new()))), ErrorKind::InvalidInput);
    one(store.run(InventoryTable::new().delete(all_inventory())));
    let rest = one(store.run(table.delete(all_goods())));
    assert_eq!(ids(&rest), vec![2, 3]);
    assert!(search_goods(&mut store, all_goods()).is_empty());
}

#[test]
fn range_filters_include_their_ends() {
    let mut store = MemoryStore::new();
    let mut d = draft("MC1", "Widget", 0);
    d.price = dec(1000, 2);
    insert_good(&mut store, d);
    insert_good(&mut store, draft("MC2", "Cheap", 9));
    insert_good(&mut store, draft("MC3", "Dear", 11));
    let min = GoodsSearchParams { min_price: Some(dec(1000, 2)), ..GoodsSearchParams::new() };
    assert_eq!(ids(&search_goods(&mut store, min)), vec![1, 3]);
    let max = GoodsSearchParams { max_price: Some(dec(10, 0)), ..GoodsSearchParams::new() };
    assert_eq!(ids(&search_goods(&mut store, max)), vec![1, 2]);
    let both = GoodsSearchParams { min_price: Some(dec(100, 1)), max_price: Some(dec(10, 0)), ..GoodsSearchParams::new() };
    assert_eq!(ids(&search_goods(&mut store, both)), vec![1]);
    let exact = GoodsSearchParams { price: Some(dec(10, 0)), ..GoodsSearchParams::new() };
    assert_eq!(ids(&search_goods(&mut store, exact)), vec![1]);
    let none = GoodsSearchParams { min_price: Some(dec(1001, 2)), max_price: Some(dec(1099, 2)), ..GoodsSearchParams::new() };
    assert!(search_goods(&mut store, none).is_empty());
}

#[test]
fn text_filters_find_parts_in_any_case() {
    let mut store = MemoryStore::new();
    insert_good(&mut store, draft("MC-100", "Blue Widget", 1));
    insert_good(&mut store, draft("mc-200", "Red widget", 1));
    insert_good(&mut store, draft("XY-300", "Gadget 100%", 1));
    let by_name = GoodsSearchParams { goods_name: Some("WIDGET".to_string()), ..GoodsSearchParams::new() };
    assert_eq!(ids(&search_goods(&mut store, by_name)), vec![1, 2]);
    let by_code = GoodsSearchParams { material_code: Some("mc".to_string()), ..GoodsSearchParams::new() };
    assert_eq!(ids(&search_goods(&mut store, by_code)), vec![1, 2]);
    let both = GoodsSearchParams { material_code: Some("00".to_string()), goods_name: Some("red".to_string()), ..GoodsSearchParams::new() };
    assert_eq!(ids(&search_goods(&mut store, both)), vec![2]);
    let percent = GoodsSearchParams { goods_name: Some("%".to_string()), ..GoodsSearchParams::new() };
    assert_eq!(ids(&search_goods(&mut store, percent)), vec![3]);
    assert_eq!(ids(&search_goods(&mut store, GoodsSearchParams::new())), vec![1, 2, 3]);
    let get_all = GoodsSearchParams { goods_id: Some(3), material_code: Some("*".to_string()), ..GoodsSearchParams::new() };
    assert_eq!(ids(&search_goods(&mut store, get_all)), vec![1, 2, 3]);
}

#[test]
fn updating_only_the_quantity_leaves_the_rest() {
    let mut store = MemoryStore::new();
    insert_good(&mut store, draft("MC1", "Widget", 5));
    let t = Timestamp { secs: 1_800_000_000, nanos: 0 };
    insert_lot(&mut store, lot(1, 10, Some(t)));
    insert_lot(&mut store, lot(1, 20, None));
    let before = search_inventory(&mut store, all_inventory());
    let patch = UpdateInventoryRequest { quantity: Some(42), ..no_patch() };
    let updated = store.run(InventoryTable::new().update(all_inventory(), patch));
    assert_eq!(updated.failure, None);
    assert_eq!(updated.completed.len(), 2);
    for (old, new) in before.iter().zip(updated.completed.iter()) {
        assert_eq!(new.quantity, 42);
        let mut expected = old.clone();
        expected.quantity = 42;
        assert_eq!(*new, expected);
    }
    assert_eq!(updated.completed[0].expired_date, Some(t));
    assert_eq!(updated.completed[1].expired_date, None);
    assert_eq!(search_inventory(&mut store, all_inventory()), updated.completed);
}

#[test]
fn updating_lots_can_change_their_good_in_the_same_step() {
    let mut store = MemoryStore::new();
    insert_good(&mut store, draft("MC1", "Widget", 5));
    insert_good(&mut store, draft("MC2", "Gadget", 6));
    insert_lot(&mut store, lot(1, 10, None));
    insert_lot(&mut store, lot(2, 20, None));
    let filter = InventorySearchParams { item_id: Some(2), ..InventorySearchParams::new() };
    let t = Timestamp { secs: 1_900_000_000, nanos: 0 };
    let patch = UpdateInventoryRequest { goods_name: Some("Gizmo".to_string()), expired_date: Some(t), ..no_patch() };
    let row = one(store.run(InventoryTable::new().update(filter, patch)));
    assert_eq!((row.item_id, row.goods_id, row.quantity), (2, 2, 20));
    assert_eq!(row.goods_name, "Gizmo");
    assert_eq!(row.expired_date, Some(t));
    assert_eq!(search_goods(&mut store, by_goods_id(2))[0].goods_name, "Gizmo");
    assert_eq!(search_goods(&mut store, by_goods_id(1))[0].goods_name, "Widget");
}

#[test]
fn a_failed_lot_update_is_rolled_back_and_earlier_lots_stay() {
    let mut store = MemoryStore::new();
    insert_good(&mut store, draft("MC1", "Widget", 5));
    insert_good(&mut store, draft("MC2", "Gadget", 6));
    insert_lot(&mut store, lot(1, 10, None));
    insert_lot(&mut store, lot(2, 20, None));
    let patch = UpdateInventoryRequest { material_code: Some("MC1".to_string()), quantity: Some(1), ..no_patch() };
    let result = store.run(InventoryTable::new().update(all_inventory(), patch));
    assert_eq!(result.failure, Some(ErrorKind::Conflict));
    assert_eq!(result.completed.len(), 1);
    assert_eq!((result.completed[0].item_id, result.completed[0].quantity), (1, 1));
    let rows = search_inventory(&mut store, all_inventory());
    assert_eq!((rows[0].quantity, rows[1].quantity), (1, 20));
    assert_eq!(rows[1].material_code, "MC2");
}

#[test]
fn updates_refuse_empty_filters_and_patches() {
    let mut store = MemoryStore::new();
    insert_good(&mut store, draft("MC1", "Widget", 5));
    insert_lot(&mut store, lot(1, 10, None));
    let inventory = InventoryTable::new();
    let goods = GoodsTable::new();
    let q = UpdateInventoryRequest { quantity: Some(1), ..no_patch() };
    assert_eq!(failure(store.run(inventory.update(all_inventory(), no_patch()))), ErrorKind::InvalidInput);
    assert_eq!(failure(store.run(inventory.update(InventorySearchParams::new(), q.clone()))), ErrorKind::InvalidInput);
    let nobody = InventorySearchParams { item_id: Some(99), ..InventorySearchParams::new() };
    assert_eq!(failure(store.run(inventory.update(nobody.clone(), q))), ErrorKind::NotFound);
    assert_eq!(failure(store.run(inventory.delete(nobody))), ErrorKind::NotFound);
    assert_eq!(failure(store.run(inventory.delete(InventorySearchParams::new()))), ErrorKind::InvalidInput);
    let rename = UpdateGoodRequest { goods_name: Some("x".to_string()), ..no_good_patch() };
    assert_eq!(failure(store.run(goods.update(all_goods(), no_good_patch()))), ErrorKind::InvalidInput);
    assert_eq!(failure(store.run(goods.update(GoodsSearchParams::new(), rename.clone()))), ErrorKind::InvalidInput);
    assert_eq!(failure(store.run(goods.update(by_goods_id(9), rename))), ErrorKind::NotFound);
    assert_eq!(search_inventory(&mut store, all_inventory())[0].quantity, 10);
}

#[test]
fn goods_are_patched_row_by_row() {
    let mut store = MemoryStore::new();
    insert_good(&mut store, draft("A", "First", 1));
    insert_good(&mut store, draft("B", "Second", 2));
    let patch = UpdateGoodRequest { price: Some(dec(750, 2)), description: Some(vec!["new".to_string()]), ..no_good_patch() };
    let result = store.run(GoodsTable::new().update(all_goods(), patch));
    assert_eq!(result.failure, None);
    assert_eq!(ids(&result.completed), vec![1, 2]);
    for g in &result.completed {
        assert_eq!(g.price, dec(750, 2));
        assert_eq!(g.description, Some(vec!["new".to_string()]));
        assert_eq!(g.volumn_l, dec(1, 0));
    }
    assert_eq!(result.completed[0].goods_name, "First");
    let clash = UpdateGoodRequest { material_code: Some("A".to_string()), ..no_good_patch() };
    let result = store.run(GoodsTable::new().update(all_goods(), clash));
    assert_eq!(result.failure, Some(ErrorKind::Conflict));
    assert_eq!(ids(&result.completed), vec![1]);
    assert_eq!(search_goods(&mut store, by_goods_id(2))[0].material_code, "B");
}

#[test]
fn deleting_lots_never_touches_goods() {
    let mut store = MemoryStore::new();
    insert_good(&mut store, draft("MC1", "Widget", 5));
    insert_lot(&mut store, lot(1, 10, None));
    insert_lot(&mut store, lot(1, 20, Some(now())));
    let filter = InventorySearchParams { min_quantity: Some(15), ..InventorySearchParams::new() };
    let gone = store.run(InventoryTable::new().delete(filter));
    assert_eq!(gone.failure, None);
    assert_eq!(gone.completed, vec![2]);
    assert_eq!(search_inventory(&mut store, all_inventory()).len(), 1);
    assert_eq!(ids(&search_goods(&mut store, all_goods())), vec![1]);
    let fresh = insert_lot(&mut store, lot(1, 20, Some(now())));
    assert_eq!(fresh.item.item_id, 3);
}

#[test]
fn single_rows_are_looked_up() {
    let mut store = MemoryStore::new();
    insert_good(&mut store, draft("MC1", "Widget", 5));
    insert_lot(&mut store, lot(1, 10, None));
    let goods = GoodsTable::new();
    let inventory = InventoryTable::new();
    assert_eq!(one(store.run(goods.get_by_id(1))).material_code, "MC1");
    let missing = store.run(goods.get_by_id(2));
    assert!(missing.completed.is_empty() && missing.failure.is_none());
    assert_eq!(one(store.run(goods.get_by_material_code("MC1".to_string()))).goods_id, 1);
    assert_eq!(one(store.run(inventory.get_by_item_id(1))).quantity, 10);
    assert_eq!(failure(store.run(inventory.get_by_item_id(2))), ErrorKind::NotFound);
}

#[test]
fn inventory_filters_on_lot_and_good_together() {
    let mut store = MemoryStore::new();
    insert_good(&mut store, draft("MC1", "Widget", 5));
    insert_good(&mut store, draft("MC2", "Gadget", 50));
    let t1 = Timestamp { secs: 100, nanos: 0 };
    let t2 = Timestamp { secs: 200, nanos: 0 };
    insert_lot(&mut store, lot(1, 10, Some(t1)));
    insert_lot(&mut store, lot(2, 20, Some(t2)));
    insert_lot(&mut store, lot(2, 30, None));
    let item_ids = |rows: Vec<InventoryItemWithGoods>| rows.iter().map(|r| r.item_id).collect::<Vec<_>>();
    let p = InventorySearchParams { min_quantity: Some(20), ..InventorySearchParams::new() };
    assert_eq!(item_ids(search_inventory(&mut store, p)), vec![2, 3]);
    let p = InventorySearchParams { min_expired_date: Some(t1), max_expired_date: Some(t2), ..InventorySearchParams::new() };
    assert_eq!(item_ids(search_inventory(&mut store, p)), vec![1, 2]);
    let p = InventorySearchParams { max_expired_date: Some(Timestamp { secs: 199, nanos: 999_999_999 }), ..InventorySearchParams::new() };
    assert_eq!(item_ids(search_inventory(&mut store, p)), vec![1]);
    let p = InventorySearchParams { expired_date: Some(t2), ..InventorySearchParams::new() };
    assert_eq!(item_ids(search_inventory(&mut store, p)), vec![2]);
    let p = InventorySearchParams {
        max_quantity: Some(25),
        goods_params: GoodsSearchParams { min_price: Some(dec(50, 0)), ..GoodsSearchParams::new() },
        ..InventorySearchParams::new()
    };
    assert_eq!(item_ids(search_inventory(&mut store, p)), vec![2]);
    assert_eq!(item_ids(search_inventory(&mut store, InventorySearchParams::new())), vec![1, 2, 3]);
    assert_eq!(item_ids(search_inventory(&mut store, all_inventory())), vec![1, 2, 3]);
}

#[test]
fn the_store_answers_requests_one_by_one() {
    let mut store = MemoryStore::new();
    let d = draft("MC1", "Widget", 5);
    assert!(matches!(store.execute(&Request::InsertGood(&d)), Reply::Goods(rows) if rows.len() == 1 && rows[0].goods_id == 1));
    assert!(matches!(store.execute(&Request::InsertGood(&d)), Reply::Failed(e) if e.classify() == ErrorKind::Conflict));
    assert!(matches!(store.execute(&Request::GoodExists(1)), Reply::Flag(true)));
    assert!(matches!(store.execute(&Request::GoodExists(2)), Reply::Flag(false)));
    let code = "MC1".to_string();
    assert!(matches!(store.execute(&Request::GoodsIdByMaterialCode(&code)), Reply::Id(Some(1))));
    assert!(matches!(store.execute(&Request::InsertItem { goods_id: 7, quantity: 1, expired_date: None }), Reply::Failed(e) if e.classify() == ErrorKind::ReferentialBlock));
    assert!(matches!(store.execute(&Request::InsertItem { goods_id: 1, quantity: 1, expired_date: None }), Reply::Items(rows) if rows == vec![InventoryItem { item_id: 1, goods_id: 1, quantity: 1, expired_date: None }]));
    assert!(matches!(store.execute(&Request::InsertItem { goods_id: 1, quantity: 2, expired_date: None }), Reply::Failed(e) if e.classify() == ErrorKind::Conflict));
    assert!(matches!(store.execute(&Request::CountInventoryOfGood(1)), Reply::Count(1)));
    assert!(matches!(store.execute(&Request::DeleteGood(1)), Reply::Failed(e) if e.classify() == ErrorKind::ReferentialBlock));
    assert!(matches!(store.execute(&Request::Begin), Reply::Done));
    assert!(matches!(store.execute(&Request::DeleteItem(1)), Reply::Done));
    assert!(matches!(store.execute(&Request::DeleteGood(1)), Reply::Done));
    assert!(matches!(store.execute(&Request::GoodExists(1)), Reply::Flag(false)));
    assert!(matches!(store.execute(&Request::Rollback), Reply::Done));
    assert!(matches!(store.execute(&Request::GoodExists(1)), Reply::Flag(true)));
    assert!(matches!(store.execute(&Request::CountInventoryOfGood(1)), Reply::Count(1)));
    assert!(matches!(store.execute(&Request::Begin), Reply::Done));
    assert!(matches!(store.execute(&Request::DeleteItem(1)), Reply::Done));
    assert!(matches!(store.execute(&Request::Commit), Reply::Done));
    assert!(matches!(store.execute(&Request::Rollback), Reply::Done));
    assert!(matches!(store.execute(&Request::CountInventoryOfGood(1)), Reply::Count(0)));
}

#[test]
fn an_insert_that_loses_the_race_gives_the_row_that_won() {
    let winner = Good {
        goods_id: 4,
        material_code: "MC1".to_string(),
        goods_name: "Theirs".to_string(),
        description: None,
        price: dec(1, 0),
        volumn_l: dec(1, 0),
        mass_g: dec(1, 0),
        mass_base: 0,
        volumn_base: 0,
    };
    let unique = || Reply::Failed(StoreError::Database { code: Some("23505".to_string()) });
    let state = GoodsInsert::Lookup { draft: draft("MC1", "Mine", 5) };
    assert!(matches!(state.to_request(), Request::GoodByMaterialCode(code) if code == "MC1"));
    let Step::Ask { state, produced: None } = state.resume(Reply::Goods(vec![])) else { panic!("expected a question") };
    assert!(matches!(state.to_request(), Request::InsertGood(d) if d.goods_name == "Mine"));
    let Step::Ask { state, produced: None } = state.resume(unique()) else { panic!("expected a question") };
    assert!(matches!(state.to_request(), Request::GoodByMaterialCode(code) if code == "MC1"));
    let Step::Done { produced: Some(inserted), failure: None } = state.resume(Reply::Goods(vec![winner.clone()])) else {
        panic!("expected the end")
    };
    assert_eq!(inserted.good, winner);
    assert!(!inserted.created);

    let state = GoodsInsert::Relookup { draft: draft("MC1", "Mine", 5) };
    assert!(matches!(state.resume(Reply::Goods(vec![])), Step::Done { produced: None, failure: Some(ErrorKind::Conflict) }));
    let state = GoodsInsert::Insert { draft: draft("MC1", "Mine", 5) };
    assert!(matches!(state.resume(Reply::Failed(StoreError::Other)), Step::Done { produced: None, failure: Some(ErrorKind::StoreFailure) }));
    let state = GoodsInsert::Lookup { draft: draft("MC1", "Mine", 5) };
    assert!(matches!(state.resume(Reply::Count(3)), Step::Done { produced: None, failure: Some(ErrorKind::StoreFailure) }));
    let state = GoodsInsert::Lookup { draft: draft("MC1", "Mine", 5) };
    assert!(matches!(state.resume(Reply::Failed(StoreError::RowNotFound)), Step::Done { produced: None, failure: Some(ErrorKind::NotFound) }));
}

#[test]
fn a_lot_insert_that_loses_the_race_gives_the_lot_that_won() {
    let unique = || Reply::Failed(StoreError::Database { code: Some("23505".to_string()) });
    let gone = || Reply::Failed(StoreError::Database { code: Some("23503".to_string()) });
    let Step::Ask { state, .. } = InventoryTable::new().insert(lot(1, 5, None), now()) else { panic!("expected a question") };
    assert!(matches!(state.to_request(), Request::GoodExists(1)));
    let Step::Ask { state, .. } = state.resume(Reply::Flag(true)) else { panic!("expected a question") };
    assert!(matches!(state.to_request(), Request::ItemByKey { goods_id: 1, expired_date: None }));
    let Step::Ask { state, .. } = state.resume(Reply::Items(vec![])) else { panic!("expected a question") };
    assert!(matches!(state.to_request(), Request::InsertItem { goods_id: 1, quantity: 5, expired_date: None }));
    let Step::Ask { state, .. } = state.resume(unique()) else { panic!("expected a question") };
    assert!(matches!(state.to_request(), Request::ItemByKey { goods_id: 1, expired_date: None }));
    let theirs = InventoryItem { item_id: 8, goods_id: 1, quantity: 2, expired_date: None };
    let Step::Ask { state, .. } = state.resume(Reply::Items(vec![theirs])) else { panic!("expected a question") };
    assert!(matches!(state.to_request(), Request::InventoryByItemId(8)));
    assert!(matches!(state.resume(Reply::Inventory(vec![])), Step::Done { produced: None, failure: Some(ErrorKind::NotFound) }));

    let state = InventoryInsert::Inserting { goods_id: 1, lot: goods_inventory::inventory_flow::Lot { quantity: 1, expired_date: None, already_expired: false } };
    assert!(matches!(state.resume(gone()), Step::Done { produced: None, failure: Some(ErrorKind::NotFound) }));
}
