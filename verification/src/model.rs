//! What the store is taken to do: a model of the two tables, and of the
//! answer to every request.
//!
//! The model is the meaning of the requests. The statements that a real
//! store runs are written to have this meaning; the store in memory is
//! proved to have it.

use crate::datetime::Timestamp;
use crate::error::ErrorKind;
use crate::goods_table::{
    CreateGoodRequest, GoodView, GoodsSearchParams, UpdateGoodRequest, good_views,
};
use crate::inventory_table::{
    joined_views, InventoryItem, InventoryItemWithGoodsView, InventorySearchParams,
};
use crate::store::{Reply, Request};
use crate::text::{contains, lowercase};
use vstd::prelude::*;

verus! {

/// The rows of the two tables, each in the order of its keys, and the keys
/// that the next new rows get.
pub struct Tables {
    pub goods: Seq<GoodView>,
    pub inventory: Seq<InventoryItem>,
    pub next_goods_id: i32,
    pub next_item_id: i32,
}

/// The store: its tables, and the rows as they were when the open
/// transaction began, if one is open.
pub struct StoreModel {
    pub tables: Tables,
    pub saved: Option<Tables>,
}

/// An answer of the store as plain data. Of a failure only the kind counts.
pub enum ReplyView {
    Goods(Seq<GoodView>),
    Items(Seq<InventoryItem>),
    Inventory(Seq<InventoryItemWithGoodsView>),
    Flag(bool),
    Id(Option<i32>),
    Count(i64),
    Done,
    Failed(ErrorKind),
}

impl View for Reply {
    type V = ReplyView;

    open spec fn view(&self) -> ReplyView {
        match self {
            Reply::Goods(rows) => ReplyView::Goods(good_views(rows@)),
            Reply::Items(rows) => ReplyView::Items(rows@),
            Reply::Inventory(rows) => ReplyView::Inventory(joined_views(rows@)),
            Reply::Flag(b) => ReplyView::Flag(*b),
            Reply::Id(id) => ReplyView::Id(*id),
            Reply::Count(n) => ReplyView::Count(*n),
            Reply::Done => ReplyView::Done,
            Reply::Failed(e) => ReplyView::Failed(e.kind()),
        }
    }
}

/// The index of the first element from `from` on that satisfies `pred`.
pub open spec fn first_index<T>(s: Seq<T>, pred: spec_fn(T) -> bool, from: int) -> Option<int>
    decreases s.len() - from,
{
    if from < 0 || from >= s.len() {
        None
    } else if pred(s[from]) {
        Some(from)
    } else {
        first_index(s, pred, from + 1)
    }
}

/// The elements from `from` on that satisfy `pred`, in order.
pub open spec fn filtered<T>(s: Seq<T>, pred: spec_fn(T) -> bool, from: int) -> Seq<T>
    decreases s.len() - from,
{
    if from < 0 || from >= s.len() {
        Seq::empty()
    } else if pred(s[from]) {
        seq![s[from]] + filtered(s, pred, from + 1)
    } else {
        filtered(s, pred, from + 1)
    }
}

/// How many elements from `from` on satisfy `pred`.
pub open spec fn count_of<T>(s: Seq<T>, pred: spec_fn(T) -> bool, from: int) -> nat
    decreases s.len() - from,
{
    if from < 0 || from >= s.len() {
        0
    } else if pred(s[from]) {
        1 + count_of(s, pred, from + 1)
    } else {
        count_of(s, pred, from + 1)
    }
}

/// A number of rows as the store reports it: no more than 64 bits hold.
pub open spec fn reported_count(n: nat) -> i64 {
    if n > i64::MAX {
        i64::MAX
    } else {
        n as i64
    }
}

/// Whether an element other than the one at `except` satisfies `pred`.
pub open spec fn another<T>(s: Seq<T>, pred: spec_fn(T) -> bool, except: int) -> bool {
    exists|j: int| 0 <= j < s.len() && j != except && pred(#[trigger] s[j])
}

/// The first element that satisfies `pred`, as a sequence of one, or the
/// empty sequence.
pub open spec fn first_match<T>(s: Seq<T>, pred: spec_fn(T) -> bool) -> Seq<T> {
    match first_index(s, pred, 0) {
        Some(i) => seq![s[i]],
        None => Seq::empty(),
    }
}

/// The good has the key.
pub open spec fn has_goods_id(goods_id: i32) -> spec_fn(GoodView) -> bool {
    |g: GoodView| g.goods_id == goods_id
}

/// The good has the material code.
pub open spec fn has_material_code(code: Seq<char>) -> spec_fn(GoodView) -> bool {
    |g: GoodView| g.material_code == code
}

/// The lot has the key.
pub open spec fn has_item_id(item_id: i32) -> spec_fn(InventoryItem) -> bool {
    |i: InventoryItem| i.item_id == item_id
}

/// The lot refers to the good.
pub open spec fn refers_to(goods_id: i32) -> spec_fn(InventoryItem) -> bool {
    |i: InventoryItem| i.goods_id == goods_id
}

/// The lot is the one of the good with the expiry date, a missing date being
/// a date of its own.
pub open spec fn has_key(goods_id: i32, expired_date: Option<Timestamp>) -> spec_fn(
    InventoryItem,
) -> bool {
    |i: InventoryItem| i.goods_id == goods_id && i.expired_date == expired_date
}

/// `text` holds `needle` somewhere, without regard to case.
pub open spec fn holds_text(text: Seq<char>, needle: Seq<char>) -> bool {
    contains(lowercase(text), lowercase(needle))
}

/// The good meets every condition of the filter. Bounds include their
/// ends; amounts are compared as numbers.
pub open spec fn goods_conditions(p: GoodsSearchParams, g: GoodView) -> bool {
    &&& p.goods_id is Some ==> g.goods_id == p.goods_id->0
    &&& p.material_code is Some ==> holds_text(g.material_code, p.material_code->0@)
    &&& p.goods_name is Some ==> holds_text(g.goods_name, p.goods_name->0@)
    &&& p.price is Some ==> g.price.same_value(p.price->0)
    &&& p.volumn_l is Some ==> g.volumn_l.same_value(p.volumn_l->0)
    &&& p.mass_g is Some ==> g.mass_g.same_value(p.mass_g->0)
    &&& p.min_volumn_l is Some ==> p.min_volumn_l->0.le(g.volumn_l)
    &&& p.max_volumn_l is Some ==> g.volumn_l.le(p.max_volumn_l->0)
    &&& p.min_mass_g is Some ==> p.min_mass_g->0.le(g.mass_g)
    &&& p.max_mass_g is Some ==> g.mass_g.le(p.max_mass_g->0)
    &&& p.min_price is Some ==> p.min_price->0.le(g.price)
    &&& p.max_price is Some ==> g.price.le(p.max_price->0)
}

/// The filter selects the good: it asks for every row, or the good meets
/// every condition.
pub open spec fn goods_match(p: GoodsSearchParams) -> spec_fn(GoodView) -> bool {
    |g: GoodView| p.get_all() || goods_conditions(p, g)
}

/// The lot meets every condition that the filter has on the lot itself. A
/// lot without expiry date meets no condition on the date.
pub open spec fn item_conditions(p: InventorySearchParams, i: InventoryItem) -> bool {
    &&& p.item_id is Some ==> i.item_id == p.item_id->0
    &&& p.quantity is Some ==> i.quantity == p.quantity->0
    &&& p.min_quantity is Some ==> p.min_quantity->0 <= i.quantity
    &&& p.max_quantity is Some ==> i.quantity <= p.max_quantity->0
    &&& p.expired_date is Some ==> i.expired_date == p.expired_date
    &&& p.min_expired_date is Some ==> i.expired_date is Some && p.min_expired_date->0.not_after(
        i.expired_date->0,
    )
    &&& p.max_expired_date is Some ==> i.expired_date is Some && i.expired_date->0.not_after(
        p.max_expired_date->0,
    )
}

/// The filter selects the lot with its good.
pub open spec fn inventory_match(p: InventorySearchParams) -> spec_fn(
    InventoryItemWithGoodsView,
) -> bool {
    |row: InventoryItemWithGoodsView|
        p.get_all() || (item_conditions(p, row.item) && goods_conditions(p.goods_params, row.good))
}

/// The lots from `from` on, each with its good. A lot whose good is missing
/// has no row.
pub open spec fn joined(goods: Seq<GoodView>, inventory: Seq<InventoryItem>, from: int) -> Seq<
    InventoryItemWithGoodsView,
>
    decreases inventory.len() - from,
{
    if from < 0 || from >= inventory.len() {
        Seq::empty()
    } else {
        join_row(goods, inventory[from]) + joined(goods, inventory, from + 1)
    }
}

/// The lot with its good, as a sequence of one, or nothing where the good
/// is missing.
pub open spec fn join_row(goods: Seq<GoodView>, item: InventoryItem) -> Seq<
    InventoryItemWithGoodsView,
> {
    match first_index(goods, has_goods_id(item.goods_id), 0) {
        Some(i) => seq![InventoryItemWithGoodsView { item, good: goods[i] }],
        None => Seq::empty(),
    }
}

impl Tables {
    /// The keys of each table ascend, and every key is below the next key
    /// to be given out.
    pub open spec fn wf(self) -> bool {
        &&& forall|i: int, j: int|
            0 <= i < j < self.goods.len() ==> (#[trigger] self.goods[i]).goods_id < (
            #[trigger] self.goods[j]).goods_id
        &&& forall|i: int|
            0 <= i < self.goods.len() ==> (#[trigger] self.goods[i]).goods_id
                < self.next_goods_id
        &&& forall|i: int, j: int|
            0 <= i < j < self.inventory.len() ==> (#[trigger] self.inventory[i]).item_id < (
            #[trigger] self.inventory[j]).item_id
        &&& forall|i: int|
            0 <= i < self.inventory.len() ==> (#[trigger] self.inventory[i]).item_id
                < self.next_item_id
    }

    /// No row, and 1 for the first key of either table.
    pub open spec fn empty() -> Tables {
        Tables { goods: Seq::empty(), inventory: Seq::empty(), next_goods_id: 1, next_item_id: 1 }
    }

    /// The goods that a filter selects, in the order of their keys.
    pub open spec fn select_goods(self, p: GoodsSearchParams) -> Seq<GoodView> {
        filtered(self.goods, goods_match(p), 0)
    }

    /// The lots that a filter selects, each with its good, in the order of
    /// the lots' keys.
    pub open spec fn select_inventory(self, p: InventorySearchParams) -> Seq<
        InventoryItemWithGoodsView,
    > {
        filtered(joined(self.goods, self.inventory, 0), inventory_match(p), 0)
    }

    /// The lot with a key, with its good.
    pub open spec fn inventory_by_item_id(self, item_id: i32) -> Seq<InventoryItemWithGoodsView> {
        match first_index(self.inventory, has_item_id(item_id), 0) {
            Some(i) => join_row(self.goods, self.inventory[i]),
            None => Seq::empty(),
        }
    }

    /// What the insert of a good does and answers. A material code that a
    /// good has already is refused; the new good gets the next key.
    pub open spec fn insert_good(self, draft: CreateGoodRequest) -> (Tables, ReplyView) {
        if first_index(self.goods, has_material_code(draft.material_code@), 0) is Some {
            (self, ReplyView::Failed(ErrorKind::Conflict))
        } else if self.next_goods_id == i32::MAX {
            (self, ReplyView::Failed(ErrorKind::StoreFailure))
        } else {
            let row = draft.row(self.next_goods_id);
            (
                Tables {
                    goods: self.goods.push(row),
                    next_goods_id: (self.next_goods_id + 1) as i32,
                    ..self
                },
                ReplyView::Goods(seq![row]),
            )
        }
    }

    /// What a patch on a good does and answers. No good with the key: no
    /// row comes back. A new material code that another good has is
    /// refused.
    pub open spec fn update_good(self, goods_id: i32, patch: UpdateGoodRequest) -> (
        Tables,
        ReplyView,
    ) {
        match first_index(self.goods, has_goods_id(goods_id), 0) {
            None => (self, ReplyView::Goods(Seq::empty())),
            Some(i) => {
                let row = patch.apply(self.goods[i]);
                if patch.material_code is Some && another(
                    self.goods,
                    has_material_code(row.material_code),
                    i,
                ) {
                    (self, ReplyView::Failed(ErrorKind::Conflict))
                } else {
                    (Tables { goods: self.goods.update(i, row), ..self }, ReplyView::Goods(seq![row]))
                }
            },
        }
    }

    /// What the delete of a good does and answers. A good that a lot refers
    /// to stays, and the delete is refused.
    pub open spec fn delete_good(self, goods_id: i32) -> (Tables, ReplyView) {
        match first_index(self.goods, has_goods_id(goods_id), 0) {
            None => (self, ReplyView::Done),
            Some(i) => if count_of(self.inventory, refers_to(goods_id), 0) > 0 {
                (self, ReplyView::Failed(ErrorKind::ReferentialBlock))
            } else {
                (Tables { goods: self.goods.remove(i), ..self }, ReplyView::Done)
            },
        }
    }

    /// What the insert of a lot does and answers. A lot must refer to a good
    /// that exists, and no two lots of a good have the same expiry date; the
    /// new lot gets the next key.
    pub open spec fn insert_item(
        self,
        goods_id: i32,
        quantity: i32,
        expired_date: Option<Timestamp>,
    ) -> (Tables, ReplyView) {
        if first_index(self.goods, has_goods_id(goods_id), 0) is None {
            (self, ReplyView::Failed(ErrorKind::ReferentialBlock))
        } else if first_index(self.inventory, has_key(goods_id, expired_date), 0) is Some {
            (self, ReplyView::Failed(ErrorKind::Conflict))
        } else if self.next_item_id == i32::MAX {
            (self, ReplyView::Failed(ErrorKind::StoreFailure))
        } else {
            let row = InventoryItem { item_id: self.next_item_id, goods_id, quantity, expired_date };
            (
                Tables {
                    inventory: self.inventory.push(row),
                    next_item_id: (self.next_item_id + 1) as i32,
                    ..self
                },
                ReplyView::Items(seq![row]),
            )
        }
    }

    /// What a patch on a lot does and answers. An expiry date that another
    /// lot of the same good has is refused.
    pub open spec fn update_item(
        self,
        item_id: i32,
        quantity: Option<i32>,
        expired_date: Option<Timestamp>,
    ) -> (Tables, ReplyView) {
        match first_index(self.inventory, has_item_id(item_id), 0) {
            None => (self, ReplyView::Done),
            Some(i) => {
                let row = self.inventory[i].patched(quantity, expired_date);
                if another(self.inventory, has_key(row.goods_id, row.expired_date), i) {
                    (self, ReplyView::Failed(ErrorKind::Conflict))
                } else {
                    (Tables { inventory: self.inventory.update(i, row), ..self }, ReplyView::Done)
                }
            },
        }
    }

    /// What the delete of a lot does.
    pub open spec fn delete_item(self, item_id: i32) -> Tables {
        match first_index(self.inventory, has_item_id(item_id), 0) {
            None => self,
            Some(i) => Tables { inventory: self.inventory.remove(i), ..self },
        }
    }

    /// The tables after a request, and the answer to it, transactions
    /// apart.
    pub open spec fn answer(self, request: Request) -> (Tables, ReplyView) {
        match request {
            Request::SearchGoods(p) => (self, ReplyView::Goods(self.select_goods(*p))),
            Request::GoodById(id) => (
                self,
                ReplyView::Goods(first_match(self.goods, has_goods_id(id))),
            ),
            Request::GoodByMaterialCode(code) => (
                self,
                ReplyView::Goods(first_match(self.goods, has_material_code(code@))),
            ),
            Request::InsertGood(draft) => self.insert_good(*draft),
            Request::UpdateGood { goods_id, patch } => self.update_good(goods_id, *patch),
            Request::DeleteGood(id) => self.delete_good(id),
            Request::CountInventoryOfGood(id) => (
                self,
                ReplyView::Count(reported_count(count_of(self.inventory, refers_to(id), 0))),
            ),
            Request::GoodExists(id) => (
                self,
                ReplyView::Flag(first_index(self.goods, has_goods_id(id), 0) is Some),
            ),
            Request::GoodsIdByMaterialCode(code) => (
                self,
                ReplyView::Id(
                    match first_index(self.goods, has_material_code(code@), 0) {
                        Some(i) => Some(self.goods[i].goods_id),
                        None => None,
                    },
                ),
            ),
            Request::SearchInventory(p) => (self, ReplyView::Inventory(self.select_inventory(*p))),
            Request::InventoryByItemId(id) => (
                self,
                ReplyView::Inventory(self.inventory_by_item_id(id)),
            ),
            Request::ItemByKey { goods_id, expired_date } => (
                self,
                ReplyView::Items(first_match(self.inventory, has_key(goods_id, expired_date))),
            ),
            Request::InsertItem { goods_id, quantity, expired_date } => self.insert_item(
                goods_id,
                quantity,
                expired_date,
            ),
            Request::UpdateItem { item_id, quantity, expired_date } => self.update_item(
                item_id,
                quantity,
                expired_date,
            ),
            Request::DeleteItem(id) => (self.delete_item(id), ReplyView::Done),
            Request::Begin => (self, ReplyView::Done),
            Request::Commit => (self, ReplyView::Done),
            Request::Rollback => (self, ReplyView::Done),
        }
    }
}

impl StoreModel {
    /// The tables are in order, and so are the rows that an open
    /// transaction remembers, which hold no key that was given out later.
    pub open spec fn wf(self) -> bool {
        &&& self.tables.wf()
        &&& self.saved matches Some(t) ==> {
            &&& t.wf()
            &&& t.next_goods_id <= self.tables.next_goods_id
            &&& t.next_item_id <= self.tables.next_item_id
        }
    }

    /// An empty store with no transaction open.
    pub open spec fn empty() -> StoreModel {
        StoreModel { tables: Tables::empty(), saved: None }
    }

    /// The store after a request, and the answer to it.
    ///
    /// `Begin` remembers the rows as they are, unless a transaction is open
    /// already. `Commit` forgets what was remembered. `Rollback` puts the
    /// remembered rows back; keys that were given out stay given out.
    pub open spec fn answer(self, request: Request) -> (StoreModel, ReplyView) {
        match request {
            Request::Begin => (
                StoreModel {
                    tables: self.tables,
                    saved: match self.saved {
                        Some(t) => Some(t),
                        None => Some(self.tables),
                    },
                },
                ReplyView::Done,
            ),
            Request::Commit => (StoreModel { tables: self.tables, saved: None }, ReplyView::Done),
            Request::Rollback => (
                StoreModel {
                    tables: match self.saved {
                        Some(t) => Tables {
                            goods: t.goods,
                            inventory: t.inventory,
                            next_goods_id: self.tables.next_goods_id,
                            next_item_id: self.tables.next_item_id,
                        },
                        None => self.tables,
                    },
                    saved: None,
                },
                ReplyView::Done,
            ),
            _ => (
                StoreModel { tables: self.tables.answer(request).0, saved: self.saved },
                self.tables.answer(request).1,
            ),
        }
    }
}

} // verus!
