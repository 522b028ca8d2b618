//! A store in memory that answers every request as the model says.
//!
//! It holds the two tables as vectors, in the order of their keys, and is
//! the store behind the operations of `operations`. Every function here
//! is proved against the model.

use crate::datetime::Timestamp;
use crate::error::{lemma_codes_differ, ErrorKind, StoreError};
use crate::goods_table::{
    good_views, zero_if_none, CreateGoodRequest, Good, GoodView, GoodsSearchParams,
    UpdateGoodRequest,
};
use crate::inventory_table::{
    joined_views, InventoryItem, InventoryItemWithGoods, InventoryItemWithGoodsView,
    InventorySearchParams,
};
use crate::model::{
    another, count_of, filtered, first_index, goods_conditions, goods_match, has_goods_id,
    has_item_id, has_key, has_material_code, holds_text, inventory_match, item_conditions,
    join_row, joined, refers_to, ReplyView, StoreModel, Tables,
};
use crate::store::{Reply, Request};
use crate::text::{chars_of, contains_chars, copy_text_list, copy_texts, text_eq, to_lowercase};
use vstd::prelude::*;
use vstd::string::*;

verus! {

/// Whether `text` holds `needle` somewhere, without regard to case.
pub fn text_holds(text: &str, needle: &str) -> (r: bool)
    ensures
        r == holds_text(text@, needle@),
{
    let a = to_lowercase(text);
    let b = to_lowercase(needle);
    contains_chars(&chars_of(a.as_str()), &chars_of(b.as_str()))
}

/// Whether two optional points in time are the same.
pub fn same_date(a: Option<Timestamp>, b: Option<Timestamp>) -> (r: bool)
    ensures
        r == (a == b),
{
    match a {
        Some(x) => match b {
            Some(y) => x.secs == y.secs && x.nanos == y.nanos,
            None => false,
        },
        None => b.is_none(),
    }
}

/// Whether a good meets every condition of a filter.
pub fn good_meets(p: &GoodsSearchParams, g: &Good) -> (r: bool)
    ensures
        r == goods_conditions(*p, g@),
{
    let by_id = match p.goods_id {
        Some(id) => g.goods_id == id,
        None => true,
    };
    let by_code = match &p.material_code {
        Some(code) => text_holds(g.material_code.as_str(), code.as_str()),
        None => true,
    };
    let by_name = match &p.goods_name {
        Some(name) => text_holds(g.goods_name.as_str(), name.as_str()),
        None => true,
    };
    let by_price = match p.price {
        Some(d) => g.price.equals(&d),
        None => true,
    };
    let by_volume = match p.volumn_l {
        Some(d) => g.volumn_l.equals(&d),
        None => true,
    };
    let by_mass = match p.mass_g {
        Some(d) => g.mass_g.equals(&d),
        None => true,
    };
    let min_volume = match p.min_volumn_l {
        Some(d) => d.at_most(&g.volumn_l),
        None => true,
    };
    let max_volume = match p.max_volumn_l {
        Some(d) => g.volumn_l.at_most(&d),
        None => true,
    };
    let min_mass = match p.min_mass_g {
        Some(d) => d.at_most(&g.mass_g),
        None => true,
    };
    let max_mass = match p.max_mass_g {
        Some(d) => g.mass_g.at_most(&d),
        None => true,
    };
    let min_price = match p.min_price {
        Some(d) => d.at_most(&g.price),
        None => true,
    };
    let max_price = match p.max_price {
        Some(d) => g.price.at_most(&d),
        None => true,
    };
    by_id && by_code && by_name && by_price && by_volume && by_mass && min_volume && max_volume
        && min_mass && max_mass && min_price && max_price
}

/// Whether a lot meets every condition that a filter has on the lot.
pub fn item_meets(p: &InventorySearchParams, i: &InventoryItem) -> (r: bool)
    ensures
        r == item_conditions(*p, *i),
{
    let by_id = match p.item_id {
        Some(id) => i.item_id == id,
        None => true,
    };
    let by_quantity = match p.quantity {
        Some(q) => i.quantity == q,
        None => true,
    };
    let min_quantity = match p.min_quantity {
        Some(q) => q <= i.quantity,
        None => true,
    };
    let max_quantity = match p.max_quantity {
        Some(q) => i.quantity <= q,
        None => true,
    };
    let by_date = match p.expired_date {
        Some(_) => same_date(i.expired_date, p.expired_date),
        None => true,
    };
    let min_date = match p.min_expired_date {
        Some(t) => match i.expired_date {
            Some(d) => t.is_not_after(&d),
            None => false,
        },
        None => true,
    };
    let max_date = match p.max_expired_date {
        Some(t) => match i.expired_date {
            Some(d) => d.is_not_after(&t),
            None => false,
        },
        None => true,
    };
    by_id && by_quantity && min_quantity && max_quantity && by_date && min_date && max_date
}

/// The index of the first good with a key.
pub fn find_good_by_id(goods: &Vec<Good>, goods_id: i32) -> (r: Option<usize>)
    ensures
        match r {
            Some(i) => first_index(good_views(goods@), has_goods_id(goods_id), 0) == Some(i as int)
                && i < goods@.len() && goods@[i as int].goods_id == goods_id,
            None => first_index(good_views(goods@), has_goods_id(goods_id), 0) is None,
        },
{
    let ghost views = good_views(goods@);
    let ghost pred = has_goods_id(goods_id);
    let mut i: usize = 0;
    while i < goods.len()
        invariant
            i <= goods.len(),
            views == good_views(goods@),
            pred == has_goods_id(goods_id),
            first_index(views, pred, 0) == first_index(views, pred, i as int),
        decreases goods.len() - i,
    {
        assert(views[i as int] == goods@[i as int]@);
        if goods[i].goods_id == goods_id {
            return Some(i);
        }
        i += 1;
    }
    None
}

/// The index of the first good with a material code.
pub fn find_good_by_code(goods: &Vec<Good>, code: &str) -> (r: Option<usize>)
    ensures
        match r {
            Some(i) => first_index(good_views(goods@), has_material_code(code@), 0) == Some(
                i as int,
            ) && i < goods@.len(),
            None => first_index(good_views(goods@), has_material_code(code@), 0) is None,
        },
{
    let ghost views = good_views(goods@);
    let ghost pred = has_material_code(code@);
    let mut i: usize = 0;
    while i < goods.len()
        invariant
            i <= goods.len(),
            views == good_views(goods@),
            pred == has_material_code(code@),
            first_index(views, pred, 0) == first_index(views, pred, i as int),
        decreases goods.len() - i,
    {
        assert(views[i as int] == goods@[i as int]@);
        if text_eq(goods[i].material_code.as_str(), code) {
            return Some(i);
        }
        i += 1;
    }
    None
}

/// The index of the first lot with a key.
pub fn find_item_by_id(items: &Vec<InventoryItem>, item_id: i32) -> (r: Option<usize>)
    ensures
        match r {
            Some(i) => first_index(items@, has_item_id(item_id), 0) == Some(i as int) && i
                < items@.len(),
            None => first_index(items@, has_item_id(item_id), 0) is None,
        },
{
    let ghost pred = has_item_id(item_id);
    let mut i: usize = 0;
    while i < items.len()
        invariant
            i <= items.len(),
            pred == has_item_id(item_id),
            first_index(items@, pred, 0) == first_index(items@, pred, i as int),
        decreases items.len() - i,
    {
        if items[i].item_id == item_id {
            return Some(i);
        }
        i += 1;
    }
    None
}

/// The index of the first lot of a good with an expiry date, or without.
pub fn find_item_by_key(
    items: &Vec<InventoryItem>,
    goods_id: i32,
    expired_date: Option<Timestamp>,
) -> (r: Option<usize>)
    ensures
        match r {
            Some(i) => first_index(items@, has_key(goods_id, expired_date), 0) == Some(i as int)
                && i < items@.len(),
            None => first_index(items@, has_key(goods_id, expired_date), 0) is None,
        },
{
    let ghost pred = has_key(goods_id, expired_date);
    let mut i: usize = 0;
    while i < items.len()
        invariant
            i <= items.len(),
            pred == has_key(goods_id, expired_date),
            first_index(items@, pred, 0) == first_index(items@, pred, i as int),
        decreases items.len() - i,
    {
        if items[i].goods_id == goods_id && same_date(items[i].expired_date, expired_date) {
            return Some(i);
        }
        i += 1;
    }
    None
}

/// How many lots refer to a good.
pub fn count_references(items: &Vec<InventoryItem>, goods_id: i32) -> (r: usize)
    ensures
        r == count_of(items@, refers_to(goods_id), 0),
{
    let ghost pred = refers_to(goods_id);
    let mut n: usize = 0;
    let mut i: usize = 0;
    while i < items.len()
        invariant
            i <= items.len(),
            n <= i,
            pred == refers_to(goods_id),
            count_of(items@, pred, 0) == n + count_of(items@, pred, i as int),
        decreases items.len() - i,
    {
        if items[i].goods_id == goods_id {
            n += 1;
        }
        i += 1;
    }
    n
}

/// Whether a good other than the one at `except` has a material code.
pub fn other_good_has_code(goods: &Vec<Good>, code: &str, except: usize) -> (r: bool)
    ensures
        r == another(good_views(goods@), has_material_code(code@), except as int),
{
    let ghost views = good_views(goods@);
    let ghost pred = has_material_code(code@);
    let mut i: usize = 0;
    while i < goods.len()
        invariant
            i <= goods.len(),
            views == good_views(goods@),
            pred == has_material_code(code@),
            forall|j: int| 0 <= j < i && j != except ==> !pred(#[trigger] views[j]),
        decreases goods.len() - i,
    {
        assert(views[i as int] == goods@[i as int]@);
        if i != except && text_eq(goods[i].material_code.as_str(), code) {
            assert(pred(views[i as int]));
            return true;
        }
        i += 1;
    }
    false
}

/// Whether a lot other than the one at `except` is the lot of a good with an
/// expiry date.
pub fn other_item_has_key(
    items: &Vec<InventoryItem>,
    goods_id: i32,
    expired_date: Option<Timestamp>,
    except: usize,
) -> (r: bool)
    ensures
        r == another(items@, has_key(goods_id, expired_date), except as int),
{
    let ghost pred = has_key(goods_id, expired_date);
    let mut i: usize = 0;
    while i < items.len()
        invariant
            i <= items.len(),
            pred == has_key(goods_id, expired_date),
            forall|j: int| 0 <= j < i && j != except ==> !pred(#[trigger] items@[j]),
        decreases items.len() - i,
    {
        if i != except && items[i].goods_id == goods_id && same_date(
            items[i].expired_date,
            expired_date,
        ) {
            assert(pred(items@[i as int]));
            return true;
        }
        i += 1;
    }
    false
}

/// A copy of the goods.
pub fn copy_goods(goods: &Vec<Good>) -> (r: Vec<Good>)
    ensures
        good_views(r@) == good_views(goods@),
{
    let mut r: Vec<Good> = Vec::new();
    let mut i: usize = 0;
    while i < goods.len()
        invariant
            i <= goods.len(),
            r@.len() == i,
            forall|j: int| 0 <= j < i ==> r@[j]@ == goods@[j]@,
        decreases goods.len() - i,
    {
        r.push(goods[i].clone());
        i += 1;
    }
    assert(good_views(r@) =~= good_views(goods@));
    r
}

/// A copy of the lots.
pub fn copy_items(items: &Vec<InventoryItem>) -> (r: Vec<InventoryItem>)
    ensures
        r@ == items@,
{
    let mut r: Vec<InventoryItem> = Vec::new();
    let mut i: usize = 0;
    while i < items.len()
        invariant
            i <= items.len(),
            r@ == items@.take(i as int),
        decreases items.len() - i,
    {
        r.push(items[i]);
        assert(items@.take(i + 1) =~= items@.take(i as int).push(items@[i as int]));
        i += 1;
    }
    assert(items@.take(items.len() as int) =~= items@);
    r
}

/// The goods that a filter selects.
pub fn select_goods(goods: &Vec<Good>, p: &GoodsSearchParams) -> (r: Vec<Good>)
    ensures
        good_views(r@) == filtered(good_views(goods@), goods_match(*p), 0),
{
    let ghost views = good_views(goods@);
    let ghost pred = goods_match(*p);
    let all = p.is_get_all();
    let mut r: Vec<Good> = Vec::new();
    let mut i: usize = 0;
    assert(good_views(r@) =~= Seq::<GoodView>::empty());
    while i < goods.len()
        invariant
            i <= goods.len(),
            views == good_views(goods@),
            pred == goods_match(*p),
            all == p.get_all(),
            filtered(views, pred, 0) == good_views(r@) + filtered(views, pred, i as int),
        decreases goods.len() - i,
    {
        assert(views[i as int] == goods@[i as int]@);
        if all || good_meets(p, &goods[i]) {
            let copy = goods[i].clone();
            proof {
                assert(good_views(r@.push(copy)) =~= good_views(r@).push(copy@));
                assert(good_views(r@) + (seq![views[i as int]] + filtered(views, pred, i + 1))
                    =~= good_views(r@).push(copy@) + filtered(views, pred, i + 1));
            }
            r.push(copy);
        }
        i += 1;
    }
    assert(good_views(r@) + Seq::<GoodView>::empty() =~= good_views(r@));
    r
}

/// A lot with its good, where the good exists.
pub fn join_item(goods: &Vec<Good>, item: &InventoryItem) -> (r: Option<InventoryItemWithGoods>)
    ensures
        match r {
            Some(row) => join_row(good_views(goods@), *item) == seq![row@],
            None => join_row(good_views(goods@), *item) == Seq::<
                InventoryItemWithGoodsView,
            >::empty(),
        },
{
    match find_good_by_id(goods, item.goods_id) {
        Some(i) => {
            assert(good_views(goods@)[i as int] == goods@[i as int]@);
            Some(InventoryItemWithGoods::join(item, &goods[i]))
        },
        None => None,
    }
}

/// Every lot with its good.
pub fn join_all(goods: &Vec<Good>, items: &Vec<InventoryItem>) -> (r: Vec<InventoryItemWithGoods>)
    ensures
        joined_views(r@) == joined(good_views(goods@), items@, 0),
{
    let ghost views = good_views(goods@);
    let mut r: Vec<InventoryItemWithGoods> = Vec::new();
    let mut i: usize = 0;
    assert(joined_views(r@) =~= Seq::<InventoryItemWithGoodsView>::empty());
    while i < items.len()
        invariant
            i <= items.len(),
            views == good_views(goods@),
            joined(views, items@, 0) == joined_views(r@) + joined(views, items@, i as int),
        decreases items.len() - i,
    {
        match join_item(goods, &items[i]) {
            Some(row) => {
                proof {
                    assert(joined_views(r@.push(row)) =~= joined_views(r@).push(row@));
                    assert(joined_views(r@) + (seq![row@] + joined(views, items@, i + 1))
                        =~= joined_views(r@).push(row@) + joined(views, items@, i + 1));
                }
                r.push(row);
            },
            None => {
                assert(Seq::<InventoryItemWithGoodsView>::empty() + joined(views, items@, i + 1)
                    =~= joined(views, items@, i + 1));
            },
        }
        i += 1;
    }
    assert(joined_views(r@) + Seq::<InventoryItemWithGoodsView>::empty() =~= joined_views(r@));
    r
}

/// The rows that a filter on inventory selects.
pub fn select_rows(rows: Vec<InventoryItemWithGoods>, p: &InventorySearchParams) -> (r: Vec<
    InventoryItemWithGoods,
>)
    ensures
        joined_views(r@) == filtered(joined_views(rows@), inventory_match(*p), 0),
{
    let ghost views = joined_views(rows@);
    let ghost pred = inventory_match(*p);
    let all = p.is_get_all();
    let mut r: Vec<InventoryItemWithGoods> = Vec::new();
    let mut i: usize = 0;
    assert(joined_views(r@) =~= Seq::<InventoryItemWithGoodsView>::empty());
    while i < rows.len()
        invariant
            i <= rows.len(),
            views == joined_views(rows@),
            pred == inventory_match(*p),
            all == p.get_all(),
            filtered(views, pred, 0) == joined_views(r@) + filtered(views, pred, i as int),
        decreases rows.len() - i,
    {
        assert(views[i as int] == rows@[i as int]@);
        let row = &rows[i];
        let item = InventoryItem {
            item_id: row.item_id,
            goods_id: row.goods_id,
            quantity: row.quantity,
            expired_date: row.expired_date,
        };
        let selected = all || (item_meets(p, &item) && row_meets(&p.goods_params, row));
        if selected {
            let copy = row.clone();
            proof {
                assert(joined_views(r@.push(copy)) =~= joined_views(r@).push(copy@));
                assert(joined_views(r@) + (seq![views[i as int]] + filtered(views, pred, i + 1))
                    =~= joined_views(r@).push(copy@) + filtered(views, pred, i + 1));
            }
            r.push(copy);
        }
        i += 1;
    }
    assert(joined_views(r@) + Seq::<InventoryItemWithGoodsView>::empty() =~= joined_views(r@));
    r
}

/// Whether the good of a joined row meets every condition of a filter on
/// goods.
pub fn row_meets(p: &GoodsSearchParams, row: &InventoryItemWithGoods) -> (r: bool)
    ensures
        r == goods_conditions(*p, row@.good),
{
    let by_id = match p.goods_id {
        Some(id) => row.goods_id == id,
        None => true,
    };
    let by_code = match &p.material_code {
        Some(code) => text_holds(row.material_code.as_str(), code.as_str()),
        None => true,
    };
    let by_name = match &p.goods_name {
        Some(name) => text_holds(row.goods_name.as_str(), name.as_str()),
        None => true,
    };
    let by_price = match p.price {
        Some(d) => row.price.equals(&d),
        None => true,
    };
    let by_volume = match p.volumn_l {
        Some(d) => row.volumn_l.equals(&d),
        None => true,
    };
    let by_mass = match p.mass_g {
        Some(d) => row.mass_g.equals(&d),
        None => true,
    };
    let min_volume = match p.min_volumn_l {
        Some(d) => d.at_most(&row.volumn_l),
        None => true,
    };
    let max_volume = match p.max_volumn_l {
        Some(d) => row.volumn_l.at_most(&d),
        None => true,
    };
    let min_mass = match p.min_mass_g {
        Some(d) => d.at_most(&row.mass_g),
        None => true,
    };
    let max_mass = match p.max_mass_g {
        Some(d) => row.mass_g.at_most(&d),
        None => true,
    };
    let min_price = match p.min_price {
        Some(d) => d.at_most(&row.price),
        None => true,
    };
    let max_price = match p.max_price {
        Some(d) => row.price.at_most(&d),
        None => true,
    };
    by_id && by_code && by_name && by_price && by_volume && by_mass && min_volume && max_volume
        && min_mass && max_mass && min_price && max_price
}

/// The good that a draft becomes under a key.
pub fn good_from_draft(draft: &CreateGoodRequest, goods_id: i32) -> (g: Good)
    ensures
        g@ == draft.row(goods_id),
{
    Good {
        goods_id,
        material_code: draft.material_code.clone(),
        goods_name: draft.goods_name.clone(),
        description: copy_text_list(&draft.description),
        price: draft.price,
        volumn_l: draft.volumn_l,
        mass_g: draft.mass_g,
        mass_base: zero_if_none(draft.mass_base),
        volumn_base: zero_if_none(draft.volumn_base),
    }
}

/// The good after a patch.
pub fn patched_good(patch: &UpdateGoodRequest, row: &Good) -> (g: Good)
    ensures
        g@ == patch.apply(row@),
{
    Good {
        goods_id: row.goods_id,
        material_code: match &patch.material_code {
            Some(s) => s.clone(),
            None => row.material_code.clone(),
        },
        goods_name: match &patch.goods_name {
            Some(s) => s.clone(),
            None => row.goods_name.clone(),
        },
        description: match &patch.description {
            Some(l) => Some(copy_texts(l)),
            None => copy_text_list(&row.description),
        },
        price: match patch.price {
            Some(d) => d,
            None => row.price,
        },
        volumn_l: match patch.volumn_l {
            Some(d) => d,
            None => row.volumn_l,
        },
        mass_g: match patch.mass_g {
            Some(d) => d,
            None => row.mass_g,
        },
        mass_base: match patch.mass_base {
            Some(n) => n,
            None => row.mass_base,
        },
        volumn_base: match patch.volumn_base {
            Some(n) => n,
            None => row.volumn_base,
        },
    }
}

/// A store in memory.
#[derive(Debug)]
pub struct MemoryStore {
    goods: Vec<Good>,
    inventory: Vec<InventoryItem>,
    next_goods_id: i32,
    next_item_id: i32,
    saved: Option<Snapshot>,
}

/// The tables as they were when a transaction began.
#[derive(Debug)]
pub struct Snapshot {
    goods: Vec<Good>,
    inventory: Vec<InventoryItem>,
    next_goods_id: i32,
    next_item_id: i32,
}

impl View for Snapshot {
    type V = Tables;

    closed spec fn view(&self) -> Tables {
        Tables {
            goods: good_views(self.goods@),
            inventory: self.inventory@,
            next_goods_id: self.next_goods_id,
            next_item_id: self.next_item_id,
        }
    }
}

/// The failure of a statement that a unique key refuses.
pub fn conflict() -> (r: Reply)
    ensures
        r@ == ReplyView::Failed(ErrorKind::Conflict),
{
    Reply::Failed(StoreError::Database { code: Some("23505".to_owned()) })
}

/// The failure of a statement that a reference refuses.
pub fn referential_block() -> (r: Reply)
    ensures
        r@ == ReplyView::Failed(ErrorKind::ReferentialBlock),
{
    proof {
        lemma_codes_differ();
    }
    Reply::Failed(StoreError::Database { code: Some("23503".to_owned()) })
}

/// The failure of a statement for any other reason.
pub fn store_failure() -> (r: Reply)
    ensures
        r@ == ReplyView::Failed(ErrorKind::StoreFailure),
{
    Reply::Failed(StoreError::Other)
}

/// The good at an index, as rows of an answer.
fn one_good(goods: &Vec<Good>, found: Option<usize>) -> (r: Vec<Good>)
    requires
        found matches Some(i) ==> i < goods@.len(),
    ensures
        good_views(r@) == match found {
            Some(i) => seq![good_views(goods@)[i as int]],
            None => Seq::<GoodView>::empty(),
        },
{
    let mut r: Vec<Good> = Vec::new();
    match found {
        Some(i) => {
            let copy = goods[i].clone();
            r.push(copy);
            assert(good_views(r@) =~= seq![good_views(goods@)[i as int]]);
        },
        None => {
            assert(good_views(r@) =~= Seq::<GoodView>::empty());
        },
    }
    r
}

/// The lot at an index, as rows of an answer.
fn one_item(items: &Vec<InventoryItem>, found: Option<usize>) -> (r: Vec<InventoryItem>)
    requires
        found matches Some(i) ==> i < items@.len(),
    ensures
        r@ == match found {
            Some(i) => seq![items@[i as int]],
            None => Seq::<InventoryItem>::empty(),
        },
{
    let mut r: Vec<InventoryItem> = Vec::new();
    match found {
        Some(i) => {
            r.push(items[i]);
            assert(r@ =~= seq![items@[i as int]]);
        },
        None => {
            assert(r@ =~= Seq::<InventoryItem>::empty());
        },
    }
    r
}

impl View for MemoryStore {
    type V = StoreModel;

    closed spec fn view(&self) -> StoreModel {
        StoreModel {
            tables: Tables {
                goods: good_views(self.goods@),
                inventory: self.inventory@,
                next_goods_id: self.next_goods_id,
                next_item_id: self.next_item_id,
            },
            saved: match self.saved {
                Some(s) => Some(s@),
                None => None,
            },
        }
    }
}

impl MemoryStore {
    /// An empty store.
    pub fn new() -> (s: Self)
        ensures
            s@ == StoreModel::empty(),
    {
        let s = MemoryStore {
            goods: Vec::new(),
            inventory: Vec::new(),
            next_goods_id: 1,
            next_item_id: 1,
            saved: None,
        };
        assert(good_views(s.goods@) =~= Seq::<GoodView>::empty());
        assert(s.inventory@ =~= Seq::<InventoryItem>::empty());
        s
    }

    fn insert_good(&mut self, draft: &CreateGoodRequest) -> (reply: Reply)
        ensures
            (final(self)@.tables, reply@) == old(self)@.tables.insert_good(*draft),
            final(self)@.saved == old(self)@.saved,
    {
        if find_good_by_code(&self.goods, draft.material_code.as_str()).is_some() {
            return conflict();
        }
        if self.next_goods_id == i32::MAX {
            return store_failure();
        }
        let row = good_from_draft(draft, self.next_goods_id);
        let copy = row.clone();
        proof {
            assert(good_views(self.goods@.push(row)) =~= good_views(self.goods@).push(row@));
        }
        self.goods.push(row);
        self.next_goods_id = self.next_goods_id + 1;
        let mut rows: Vec<Good> = Vec::new();
        rows.push(copy);
        assert(good_views(rows@) =~= seq![copy@]);
        Reply::Goods(rows)
    }

    fn update_good(&mut self, goods_id: i32, patch: &UpdateGoodRequest) -> (reply: Reply)
        ensures
            (final(self)@.tables, reply@) == old(self)@.tables.update_good(goods_id, *patch),
            final(self)@.saved == old(self)@.saved,
    {
        match find_good_by_id(&self.goods, goods_id) {
            None => {
                let rows: Vec<Good> = Vec::new();
                assert(good_views(rows@) =~= Seq::<GoodView>::empty());
                Reply::Goods(rows)
            },
            Some(i) => {
                assert(good_views(self.goods@)[i as int] == self.goods@[i as int]@);
                let row = patched_good(patch, &self.goods[i]);
                let taken = match &patch.material_code {
                    Some(_) => other_good_has_code(&self.goods, row.material_code.as_str(), i),
                    None => false,
                };
                if taken {
                    return conflict();
                }
                let copy = row.clone();
                proof {
                    assert(good_views(self.goods@.update(i as int, row)) =~= good_views(
                        self.goods@,
                    ).update(i as int, row@));
                }
                self.goods.set(i, row);
                let mut rows: Vec<Good> = Vec::new();
                rows.push(copy);
                assert(good_views(rows@) =~= seq![copy@]);
                Reply::Goods(rows)
            },
        }
    }

    fn delete_good(&mut self, goods_id: i32) -> (reply: Reply)
        ensures
            (final(self)@.tables, reply@) == old(self)@.tables.delete_good(goods_id),
            final(self)@.saved == old(self)@.saved,
    {
        match find_good_by_id(&self.goods, goods_id) {
            None => Reply::Done,
            Some(i) => {
                if count_references(&self.inventory, goods_id) > 0 {
                    return referential_block();
                }
                proof {
                    assert(good_views(self.goods@.remove(i as int)) =~= good_views(
                        self.goods@,
                    ).remove(i as int));
                }
                let _gone = self.goods.remove(i);
                Reply::Done
            },
        }
    }

    fn insert_item(&mut self, goods_id: i32, quantity: i32, expired_date: Option<Timestamp>) -> (reply:
        Reply)
        ensures
            (final(self)@.tables, reply@) == old(self)@.tables.insert_item(
                goods_id,
                quantity,
                expired_date,
            ),
            final(self)@.saved == old(self)@.saved,
    {
        if find_good_by_id(&self.goods, goods_id).is_none() {
            return referential_block();
        }
        if find_item_by_key(&self.inventory, goods_id, expired_date).is_some() {
            return conflict();
        }
        if self.next_item_id == i32::MAX {
            return store_failure();
        }
        let row = InventoryItem { item_id: self.next_item_id, goods_id, quantity, expired_date };
        self.inventory.push(row);
        self.next_item_id = self.next_item_id + 1;
        let mut rows: Vec<InventoryItem> = Vec::new();
        rows.push(row);
        assert(rows@ =~= seq![row]);
        Reply::Items(rows)
    }

    fn update_item(&mut self, item_id: i32, quantity: Option<i32>, expired_date: Option<Timestamp>) -> (reply:
        Reply)
        ensures
            (final(self)@.tables, reply@) == old(self)@.tables.update_item(
                item_id,
                quantity,
                expired_date,
            ),
            final(self)@.saved == old(self)@.saved,
    {
        match find_item_by_id(&self.inventory, item_id) {
            None => Reply::Done,
            Some(i) => {
                let old_row = self.inventory[i];
                let row = InventoryItem {
                    item_id: old_row.item_id,
                    goods_id: old_row.goods_id,
                    quantity: match quantity {
                        Some(q) => q,
                        None => old_row.quantity,
                    },
                    expired_date: match expired_date {
                        Some(t) => Some(t),
                        None => old_row.expired_date,
                    },
                };
                if other_item_has_key(&self.inventory, row.goods_id, row.expired_date, i) {
                    return conflict();
                }
                self.inventory.set(i, row);
                Reply::Done
            },
        }
    }

    fn delete_item(&mut self, item_id: i32) -> (reply: Reply)
        ensures
            final(self)@.tables == old(self)@.tables.delete_item(item_id),
            reply@ == ReplyView::Done,
            final(self)@.saved == old(self)@.saved,
    {
        match find_item_by_id(&self.inventory, item_id) {
            None => {},
            Some(i) => {
                let _gone = self.inventory.remove(i);
            },
        }
        Reply::Done
    }

    fn begin(&mut self)
        ensures
            final(self)@ == old(self)@.answer(Request::Begin).0,
    {
        if self.saved.is_none() {
            self.saved = Some(
                Snapshot {
                    goods: copy_goods(&self.goods),
                    inventory: copy_items(&self.inventory),
                    next_goods_id: self.next_goods_id,
                    next_item_id: self.next_item_id,
                },
            );
        }
    }

    fn rollback(&mut self)
        ensures
            final(self)@ == old(self)@.answer(Request::Rollback).0,
    {
        match self.saved.take() {
            Some(snapshot) => {
                self.goods = snapshot.goods;
                self.inventory = snapshot.inventory;
            },
            None => {},
        }
    }

    /// Answers a request as the model says, and changes as the model says.
    pub fn execute(&mut self, request: &Request) -> (reply: Reply)
        ensures
            (final(self)@, reply@) == old(self)@.answer(*request),
    {
        match request {
            Request::SearchGoods(p) => Reply::Goods(select_goods(&self.goods, p)),
            Request::GoodById(id) => {
                let found = find_good_by_id(&self.goods, *id);
                Reply::Goods(one_good(&self.goods, found))
            },
            Request::GoodByMaterialCode(code) => {
                let found = find_good_by_code(&self.goods, code.as_str());
                Reply::Goods(one_good(&self.goods, found))
            },
            Request::InsertGood(draft) => self.insert_good(draft),
            Request::UpdateGood { goods_id, patch } => self.update_good(*goods_id, patch),
            Request::DeleteGood(id) => self.delete_good(*id),
            Request::CountInventoryOfGood(id) => {
                let n = count_references(&self.inventory, *id);
                let wide: u128 = n as u128;
                if wide > 0x7fff_ffff_ffff_ffff {
                    Reply::Count(0x7fff_ffff_ffff_ffff)
                } else {
                    Reply::Count(wide as i64)
                }
            },
            Request::GoodExists(id) => Reply::Flag(find_good_by_id(&self.goods, *id).is_some()),
            Request::GoodsIdByMaterialCode(code) => {
                match find_good_by_code(&self.goods, code.as_str()) {
                    Some(i) => {
                        assert(good_views(self.goods@)[i as int] == self.goods@[i as int]@);
                        Reply::Id(Some(self.goods[i].goods_id))
                    },
                    None => Reply::Id(None),
                }
            },
            Request::SearchInventory(p) => {
                let all = join_all(&self.goods, &self.inventory);
                Reply::Inventory(select_rows(all, p))
            },
            Request::InventoryByItemId(id) => {
                let mut rows: Vec<InventoryItemWithGoods> = Vec::new();
                assert(joined_views(rows@) =~= Seq::<InventoryItemWithGoodsView>::empty());
                match find_item_by_id(&self.inventory, *id) {
                    Some(i) => {
                        match join_item(&self.goods, &self.inventory[i]) {
                            Some(row) => {
                                rows.push(row);
                                assert(joined_views(rows@) =~= seq![row@]);
                            },
                            None => {},
                        }
                    },
                    None => {},
                }
                Reply::Inventory(rows)
            },
            Request::ItemByKey { goods_id, expired_date } => {
                let found = find_item_by_key(&self.inventory, *goods_id, *expired_date);
                Reply::Items(one_item(&self.inventory, found))
            },
            Request::InsertItem { goods_id, quantity, expired_date } => self.insert_item(
                *goods_id,
                *quantity,
                *expired_date,
            ),
            Request::UpdateItem { item_id, quantity, expired_date } => self.update_item(
                *item_id,
                *quantity,
                *expired_date,
            ),
            Request::DeleteItem(id) => self.delete_item(*id),
            Request::Begin => {
                self.begin();
                Reply::Done
            },
            Request::Commit => {
                self.saved = None;
                Reply::Done
            },
            Request::Rollback => {
                self.rollback();
                Reply::Done
            },
        }
    }
}

} // verus!
