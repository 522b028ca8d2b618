//! The conversation with the store: what is asked, what comes back, and
//! where an operation stands between two questions.
//!
//! An operation never talks to the store itself. It says what to ask, takes
//! the answer, and says what to ask next or how it ended. Whoever runs it
//! does the asking, one question at a time.

use crate::database::{count_by_foreign_key, count_sql, exists_by_id, exists_sql, get_id_by_string,
    get_id_sql};
use crate::datetime::Timestamp;
use crate::error::{ErrorKind, StoreError};
use crate::goods_table::{
    delete_good_statement, good_by_id_statement, good_by_material_code_statement,
    CreateGoodRequest, Good, GoodsSearchParams, UpdateGoodRequest, GOODS_BY_ID,
    GOODS_BY_MATERIAL_CODE, GOODS_DELETE, GOODS_INSERT, GOODS_UPDATE,
};
use crate::inventory_table::{
    delete_item_statement, insert_item_statement, inventory_by_item_id_statement,
    item_by_key_statement, item_key_binds, item_key_sql, timestamp_value, update_item_binds,
    update_item_statement, InventoryItem, InventoryItemWithGoods, InventorySearchParams,
    INVENTORY_BY_ITEM_ID, ITEM_DELETE, ITEM_INSERT, ITEM_UPDATE,
};
use crate::sql::{plain_statement, values, Column, Statement, Table, ValueView};
use vstd::prelude::*;
use vstd::string::*;

verus! {

/// The statement that opens a transaction.
pub const BEGIN: &'static str = "BEGIN";

/// The statement that makes a transaction take effect.
pub const COMMIT: &'static str = "COMMIT";

/// The statement that undoes a transaction.
pub const ROLLBACK: &'static str = "ROLLBACK";

/// One question to the store. A request borrows what it speaks of from the
/// operation that asks.
#[derive(Debug)]
pub enum Request<'a> {
    /// The goods that a filter selects, by key.
    SearchGoods(&'a GoodsSearchParams),
    /// The good with a key, if there is one.
    GoodById(i32),
    /// The good with a material code, if there is one.
    GoodByMaterialCode(&'a String),
    /// A new good. The store assigns the key and answers with the row.
    InsertGood(&'a CreateGoodRequest),
    /// A patch on the good with a key. The store answers with the row.
    UpdateGood { goods_id: i32, patch: &'a UpdateGoodRequest },
    /// The end of the good with a key.
    DeleteGood(i32),
    /// How many lots refer to the good with a key.
    CountInventoryOfGood(i32),
    /// Whether there is a good with a key.
    GoodExists(i32),
    /// The key of the good with a material code, if there is one.
    GoodsIdByMaterialCode(&'a String),
    /// The lots that a filter selects, each with its good, by key.
    SearchInventory(&'a InventorySearchParams),
    /// The lot with a key, with its good.
    InventoryByItemId(i32),
    /// The lot of a good with an expiry date, or the one without.
    ItemByKey { goods_id: i32, expired_date: Option<Timestamp> },
    /// A new lot. The store assigns the key and answers with the row.
    InsertItem { goods_id: i32, quantity: i32, expired_date: Option<Timestamp> },
    /// A patch on the lot with a key.
    UpdateItem { item_id: i32, quantity: Option<i32>, expired_date: Option<Timestamp> },
    /// The end of the lot with a key.
    DeleteItem(i32),
    /// What follows is one transaction.
    Begin,
    /// The transaction takes effect.
    Commit,
    /// The transaction never happened.
    Rollback,
}

/// What the store answers.
#[derive(Debug)]
pub enum Reply {
    /// Rows of goods.
    Goods(Vec<Good>),
    /// Rows of lots.
    Items(Vec<InventoryItem>),
    /// Rows of lots, each with its good.
    Inventory(Vec<InventoryItemWithGoods>),
    /// Yes or no.
    Flag(bool),
    /// A key, or none.
    Id(Option<i32>),
    /// A number of rows.
    Count(i64),
    /// The statement took effect and returns nothing.
    Done,
    /// The statement failed.
    Failed(StoreError),
}

/// Where an operation stands after an answer.
#[derive(Debug)]
pub enum Step<S, T> {
    /// The store has to be asked again: the request of `state`. What the
    /// operation has completed in this step, if anything, is `produced`.
    Ask { state: S, produced: Option<T> },
    /// The operation is over: with a last product, with a failure, or, where
    /// there was nothing to produce, with neither.
    Done { produced: Option<T>, failure: Option<ErrorKind> },
}

/// The failure that a reply stands for where another reply was expected.
pub open spec fn reply_failure(reply: Reply) -> ErrorKind {
    match reply {
        Reply::Failed(e) => e.kind(),
        _ => ErrorKind::StoreFailure,
    }
}

/// An operation that ends with a failure.
pub open spec fn failed<S, T>(kind: ErrorKind) -> Step<S, T> {
    Step::Done { produced: None, failure: Some(kind) }
}

/// An operation that ends with a product.
pub open spec fn finished<S, T>(product: T) -> Step<S, T> {
    Step::Done { produced: Some(product), failure: None }
}

/// An operation that goes on without a product.
pub open spec fn ask<S, T>(state: S) -> Step<S, T> {
    Step::Ask { state, produced: None }
}

impl<'a> Request<'a> {
    /// The text of the statement that asks this.
    pub open spec fn sql(self) -> Seq<char> {
        match self {
            Request::SearchGoods(params) => params.sql(),
            Request::GoodById(_) => GOODS_BY_ID@,
            Request::GoodByMaterialCode(_) => GOODS_BY_MATERIAL_CODE@,
            Request::InsertGood(_) => GOODS_INSERT@,
            Request::UpdateGood { .. } => GOODS_UPDATE@,
            Request::DeleteGood(_) => GOODS_DELETE@,
            Request::CountInventoryOfGood(_) => count_sql(Table::Inventory, Column::GoodsId),
            Request::GoodExists(_) => exists_sql(Table::Goods, Column::GoodsId),
            Request::GoodsIdByMaterialCode(_) => get_id_sql(
                Table::Goods,
                Column::GoodsId,
                Column::MaterialCode,
            ),
            Request::SearchInventory(params) => params.sql(),
            Request::InventoryByItemId(_) => INVENTORY_BY_ITEM_ID@,
            Request::ItemByKey { expired_date, .. } => item_key_sql(expired_date),
            Request::InsertItem { .. } => ITEM_INSERT@,
            Request::UpdateItem { .. } => ITEM_UPDATE@,
            Request::DeleteItem(_) => ITEM_DELETE@,
            Request::Begin => BEGIN@,
            Request::Commit => COMMIT@,
            Request::Rollback => ROLLBACK@,
        }
    }

    /// The values of the statement that asks this, in the order of its
    /// placeholders.
    pub open spec fn binds(self) -> Seq<ValueView> {
        match self {
            Request::SearchGoods(params) => params.binds(),
            Request::GoodById(id) => seq![ValueView::Int(id)],
            Request::GoodByMaterialCode(code) => seq![ValueView::Text(code@)],
            Request::InsertGood(draft) => draft.binds(),
            Request::UpdateGood { goods_id, patch } => patch.binds(goods_id),
            Request::DeleteGood(id) => seq![ValueView::Int(id)],
            Request::CountInventoryOfGood(id) => seq![ValueView::Int(id)],
            Request::GoodExists(id) => seq![ValueView::Int(id)],
            Request::GoodsIdByMaterialCode(code) => seq![ValueView::Text(code@)],
            Request::SearchInventory(params) => params.binds(),
            Request::InventoryByItemId(id) => seq![ValueView::Int(id)],
            Request::ItemByKey { goods_id, expired_date } => item_key_binds(goods_id, expired_date),
            Request::InsertItem { goods_id, quantity, expired_date } => seq![
                ValueView::Int(goods_id),
                ValueView::Int(quantity),
                timestamp_value(expired_date),
            ],
            Request::UpdateItem { item_id, quantity, expired_date } => update_item_binds(
                item_id,
                quantity,
                expired_date,
            ),
            Request::DeleteItem(id) => seq![ValueView::Int(id)],
            Request::Begin => Seq::empty(),
            Request::Commit => Seq::empty(),
            Request::Rollback => Seq::empty(),
        }
    }

    /// The statement that asks this.
    pub fn statement(&self) -> (s: Statement)
        ensures
            s.sql@ == self.sql(),
            values(s.binds@) == self.binds(),
    {
        match self {
            Request::SearchGoods(params) => params.statement(),
            Request::GoodById(id) => good_by_id_statement(*id),
            Request::GoodByMaterialCode(code) => good_by_material_code_statement(code.as_str()),
            Request::InsertGood(draft) => draft.statement(),
            Request::UpdateGood { goods_id, patch } => patch.statement(*goods_id),
            Request::DeleteGood(id) => delete_good_statement(*id),
            Request::CountInventoryOfGood(id) => count_by_foreign_key(
                Table::Inventory,
                Column::GoodsId,
                *id,
            ),
            Request::GoodExists(id) => exists_by_id(Table::Goods, Column::GoodsId, *id),
            Request::GoodsIdByMaterialCode(code) => get_id_by_string(
                Table::Goods,
                Column::GoodsId,
                Column::MaterialCode,
                code.as_str(),
            ),
            Request::SearchInventory(params) => params.statement(),
            Request::InventoryByItemId(id) => inventory_by_item_id_statement(*id),
            Request::ItemByKey { goods_id, expired_date } => item_by_key_statement(
                *goods_id,
                *expired_date,
            ),
            Request::InsertItem { goods_id, quantity, expired_date } => insert_item_statement(
                *goods_id,
                *quantity,
                *expired_date,
            ),
            Request::UpdateItem { item_id, quantity, expired_date } => update_item_statement(
                *item_id,
                *quantity,
                *expired_date,
            ),
            Request::DeleteItem(id) => delete_item_statement(*id),
            Request::Begin => {
                let s = plain_statement(BEGIN);
                assert(values(s.binds@) =~= Seq::empty());
                s
            },
            Request::Commit => {
                let s = plain_statement(COMMIT);
                assert(values(s.binds@) =~= Seq::empty());
                s
            },
            Request::Rollback => {
                let s = plain_statement(ROLLBACK);
                assert(values(s.binds@) =~= Seq::empty());
                s
            },
        }
    }
}

/// The failure that a reply stands for where another reply was expected.
pub fn failure_of(reply: &Reply) -> (k: ErrorKind)
    ensures
        k == reply_failure(*reply),
{
    match reply {
        Reply::Failed(e) => e.classify(),
        _ => ErrorKind::StoreFailure,
    }
}

/// The first of the rows, if there is one.
pub fn first_good(rows: Vec<Good>) -> (r: Option<Good>)
    ensures
        rows@.len() == 0 ==> r is None,
        rows@.len() > 0 ==> r == Some(rows@[0]),
{
    let mut rows = rows;
    if rows.len() == 0 {
        None
    } else {
        Some(rows.swap_remove(0))
    }
}

/// The first of the rows, if there is one.
pub fn first_inventory(rows: Vec<InventoryItemWithGoods>) -> (r: Option<InventoryItemWithGoods>)
    ensures
        rows@.len() == 0 ==> r is None,
        rows@.len() > 0 ==> r == Some(rows@[0]),
{
    let mut rows = rows;
    if rows.len() == 0 {
        None
    } else {
        Some(rows.swap_remove(0))
    }
}

} // verus!
