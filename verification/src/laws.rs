//! What holds of every store and every operation.
//!
//! The laws are stated over the model of the store and over what the
//! operations come to on it. The store in memory answers as the model says,
//! so they hold of every run against it.

use crate::decimal::Decimal;
use crate::error::ErrorKind;
use crate::flow::{lemma_after_nothing, step_outcome, Flow, Outcome};
use crate::goods_flow::{
    delete_rows, delete_selected, patch_goods, DeletePhase, GoodsDelete, GoodsInsert, GoodsUpdate,
};
use crate::goods_table::{
    CreateGoodRequest, GoodView, GoodsSearchParams, UpdateGoodRequest, GOODS_SCAN,
};
use crate::datetime::Timestamp;
use crate::inventory_flow::{
    delete_lots, loaded, stocked, update_lots, InventoryDelete, InventoryInsert, InventoryUpdate,
    ItemPatch, Lot, UpdatePhase,
};
use crate::inventory_table::{
    CreateInventoryRequest, InventoryItem, InventoryItemWithGoodsView, InventorySearchParams,
    UpdateInventoryRequest, INVENTORY_SCAN,
};
use crate::model::{
    count_of, filtered, first_index, goods_conditions, goods_match, has_goods_id, has_item_id,
    has_key, has_material_code, inventory_match, join_row, joined, refers_to, ReplyView,
    StoreModel, Tables,
};
use crate::store::Request;
use vstd::prelude::*;

verus! {

/// Where the first match is found, it matches, and nothing before it does.
pub proof fn lemma_first_index_found<T>(s: Seq<T>, pred: spec_fn(T) -> bool, from: int)
    requires
        0 <= from,
        first_index(s, pred, from) is Some,
    ensures
        from <= first_index(s, pred, from)->0 < s.len(),
        pred(s[first_index(s, pred, from)->0]),
        forall|k: int| from <= k < first_index(s, pred, from)->0 ==> !pred(#[trigger] s[k]),
    decreases s.len() - from,
{
    if from < s.len() && !pred(s[from]) {
        lemma_first_index_found(s, pred, from + 1);
    }
}

/// Where no match is found, nothing matches.
pub proof fn lemma_first_index_none<T>(s: Seq<T>, pred: spec_fn(T) -> bool, from: int)
    requires
        0 <= from,
        first_index(s, pred, from) is None,
    ensures
        forall|k: int| from <= k < s.len() ==> !pred(#[trigger] s[k]),
    decreases s.len() - from,
{
    if from < s.len() {
        lemma_first_index_none(s, pred, from + 1);
    }
}

/// An element that matches, with none before it that does, is the first
/// match.
pub proof fn lemma_first_index_is<T>(s: Seq<T>, pred: spec_fn(T) -> bool, from: int, i: int)
    requires
        0 <= from <= i < s.len(),
        pred(s[i]),
        forall|k: int| from <= k < i ==> !pred(#[trigger] s[k]),
    ensures
        first_index(s, pred, from) == Some(i),
    decreases i - from,
{
    if from < i {
        lemma_first_index_is(s, pred, from + 1, i);
    }
}

/// A predicate that holds of every element selects every element.
pub proof fn lemma_filtered_all<T>(s: Seq<T>, pred: spec_fn(T) -> bool, from: int)
    requires
        0 <= from <= s.len(),
        forall|k: int| from <= k < s.len() ==> pred(#[trigger] s[k]),
    ensures
        filtered(s, pred, from) == s.skip(from),
    decreases s.len() - from,
{
    if from < s.len() {
        lemma_filtered_all(s, pred, from + 1);
        assert(seq![s[from]] + s.skip(from + 1) =~= s.skip(from));
    } else {
        assert(s.skip(from) =~= Seq::<T>::empty());
    }
}

/// An element that the predicate holds of is among the selected.
pub proof fn lemma_filtered_contains<T>(s: Seq<T>, pred: spec_fn(T) -> bool, from: int, k: int)
    requires
        0 <= from <= k < s.len(),
        pred(s[k]),
    ensures
        filtered(s, pred, from).contains(s[k]),
    decreases s.len() - from,
{
    let rest = filtered(s, pred, from + 1);
    if from == k {
        assert((seq![s[from]] + rest)[0] == s[k]);
    } else {
        lemma_filtered_contains(s, pred, from + 1, k);
        let j = choose|j: int| 0 <= j < rest.len() && rest[j] == s[k];
        if pred(s[from]) {
            assert((seq![s[from]] + rest)[j + 1] == s[k]);
        }
    }
}

/// Every selected element comes from the sequence, at or after `from`, and
/// the predicate holds of it; and the selected keep their order.
pub proof fn lemma_filtered_members<T>(s: Seq<T>, pred: spec_fn(T) -> bool, from: int, j: int)
    requires
        0 <= from,
        0 <= j < filtered(s, pred, from).len(),
    ensures
        exists|k: int|
            from <= k < s.len() && #[trigger] s[k] == filtered(s, pred, from)[j] && pred(s[k]),
    decreases s.len() - from,
{
    if from < s.len() {
        if pred(s[from]) {
            if j == 0 {
                assert(s[from] == filtered(s, pred, from)[j]);
            } else {
                lemma_filtered_members(s, pred, from + 1, j - 1);
                let k = choose|k: int|
                    from + 1 <= k < s.len() && #[trigger] s[k] == filtered(s, pred, from + 1)[j - 1]
                        && pred(s[k]);
                assert(s[k] == filtered(s, pred, from)[j]);
            }
        } else {
            lemma_filtered_members(s, pred, from + 1, j);
            let k = choose|k: int|
                from + 1 <= k < s.len() && #[trigger] s[k] == filtered(s, pred, from + 1)[j]
                    && pred(s[k]);
            assert(s[k] == filtered(s, pred, from)[j]);
        }
    }
}

/// A filter that asks for every row is the plain ordered scan: the
/// statement has no condition and no value, and the store answers with
/// every row, in the order of the table, as it does to a filter without any
/// field.
pub proof fn law_get_all_goods_is_scan(p: GoodsSearchParams, t: Tables)
    requires
        p.get_all(),
    ensures
        p.sql() == GOODS_SCAN@,
        p.binds() == Seq::<crate::sql::ValueView>::empty(),
        t.select_goods(p) == t.goods,
        forall|q: GoodsSearchParams| q.is_empty() ==> t.select_goods(q) == t.select_goods(p),
{
    lemma_filtered_all(t.goods, goods_match(p), 0);
    assert(t.goods.skip(0) =~= t.goods);
    assert forall|q: GoodsSearchParams| q.is_empty() implies t.select_goods(q) == t.select_goods(
        p,
    ) by {
        assert forall|k: int| 0 <= k < t.goods.len() implies goods_match(q)(
            #[trigger] t.goods[k],
        ) by {
            assert(goods_conditions(q, t.goods[k]));
        }
        lemma_filtered_all(t.goods, goods_match(q), 0);
    }
}

/// A filter on inventory that asks for every row is the plain ordered scan
/// of the join: no condition, no value, and every lot that has a good, in
/// the order of the lots, as for a filter without any field.
pub proof fn law_get_all_inventory_is_scan(p: InventorySearchParams, t: Tables)
    requires
        p.get_all(),
    ensures
        p.sql() == INVENTORY_SCAN@,
        p.binds() == Seq::<crate::sql::ValueView>::empty(),
        t.select_inventory(p) == joined(t.goods, t.inventory, 0),
        forall|q: InventorySearchParams|
            q.is_empty() ==> t.select_inventory(q) == t.select_inventory(p),
{
    let rows = joined(t.goods, t.inventory, 0);
    lemma_filtered_all(rows, inventory_match(p), 0);
    assert(rows.skip(0) =~= rows);
    assert forall|q: InventorySearchParams| q.is_empty() implies t.select_inventory(q)
        == t.select_inventory(p) by {
        assert forall|k: int| 0 <= k < rows.len() implies inventory_match(q)(#[trigger] rows[k]) by {
            assert(goods_conditions(q.goods_params, rows[k].good));
        }
        lemma_filtered_all(rows, inventory_match(q), 0);
    }
}

/// Bounds include their ends: a good whose price is the bound is selected
/// by the filter that has only that lower bound, and by the one that has
/// only that upper bound, whatever the scale in which either is written.
pub proof fn law_range_bounds_are_inclusive(none: GoodsSearchParams, t: Tables, k: int, bound: Decimal)
    requires
        none.is_empty(),
        0 <= k < t.goods.len(),
        t.goods[k].price.same_value(bound),
    ensures
        t.select_goods(GoodsSearchParams { min_price: Some(bound), ..none }).contains(t.goods[k]),
        t.select_goods(GoodsSearchParams { max_price: Some(bound), ..none }).contains(t.goods[k]),
{
    let g = t.goods[k];
    let low = GoodsSearchParams { min_price: Some(bound), ..none };
    let high = GoodsSearchParams { max_price: Some(bound), ..none };
    assert(bound.le(g.price) && g.price.le(bound));
    assert(goods_conditions(low, g));
    assert(goods_conditions(high, g));
    assert(goods_match(low)(g));
    assert(goods_match(high)(g));
    lemma_filtered_contains(t.goods, goods_match(low), 0, k);
    lemma_filtered_contains(t.goods, goods_match(high), 0, k);
}

/// A row pushed at the end is found by a predicate that no earlier row
/// satisfies.
pub proof fn lemma_first_index_of_pushed<T>(s: Seq<T>, pred: spec_fn(T) -> bool, x: T)
    requires
        first_index(s, pred, 0) is None,
        pred(x),
    ensures
        first_index(s.push(x), pred, 0) == Some(s.len() as int),
{
    lemma_first_index_none(s, pred, 0);
    let t = s.push(x);
    assert forall|k: int| 0 <= k < s.len() implies !pred(#[trigger] t[k]) by {
        assert(t[k] == s[k]);
    }
    lemma_first_index_is(t, pred, 0, s.len() as int);
}

/// Inserting a good is idempotent on its material code: after an insert
/// that succeeded, an insert of any draft with the same material code gives
/// the same good, creates nothing, and leaves the store as it is.
pub proof fn law_insert_good_is_idempotent(
    m: StoreModel,
    first: CreateGoodRequest,
    second: CreateGoodRequest,
)
    requires
        first.material_code@ == second.material_code@,
        (GoodsInsert::Lookup { draft: first }).outcome(m).failure is None,
    ensures
        ({
            let one = (GoodsInsert::Lookup { draft: first }).outcome(m);
            let two = (GoodsInsert::Lookup { draft: second }).outcome(one.store);
            &&& one.produced.len() == 1
            &&& two.failure is None
            &&& two.produced.len() == 1
            &&& two.produced[0].good == one.produced[0].good
            &&& !two.produced[0].created
            &&& two.store == one.store
        }),
{
    let code = first.material_code@;
    let pred = has_material_code(code);
    let one = (GoodsInsert::Lookup { draft: first }).outcome(m);
    if first_index(m.tables.goods, pred, 0) is Some {
        lemma_first_index_found(m.tables.goods, pred, 0);
    } else {
        lemma_first_index_none(m.tables.goods, pred, 0);
        let row = first.row(m.tables.next_goods_id);
        assert(pred(row));
        lemma_first_index_of_pushed(m.tables.goods, pred, row);
        assert(one.store.tables.goods == m.tables.goods.push(row));
    }
}

/// A lot is referred to by its key.
pub open spec fn referenced(inventory: Seq<InventoryItem>, good: GoodView) -> bool {
    count_of(inventory, refers_to(good.goods_id), 0) > 0
}

/// What the delete of goods comes to inside its transaction, where `base`
/// is what the transaction remembers. A failure puts `base` back. Where a
/// lot refers to one of the goods still to be looked at, the delete fails
/// with `ReferentialBlock`.
pub proof fn lemma_delete_rows(
    m: StoreModel,
    rows: Seq<GoodView>,
    next: int,
    phase: DeletePhase,
    base: Tables,
)
    requires
        0 <= next < rows.len(),
        m.saved == Some(base),
        m.tables.inventory == base.inventory,
        m.tables.next_goods_id == base.next_goods_id,
        m.tables.next_item_id == base.next_item_id,
    ensures
        ({
            let o = delete_rows(m, rows, next, phase);
            &&& o.failure is Some ==> o.store == (StoreModel { tables: base, saved: None })
                && o.produced.len() == 0
            &&& o.failure is None ==> o.produced == seq![rows] && o.store.saved is None
            &&& (exists|k: int|
                next <= k < rows.len() && (phase == DeletePhase::Delete ==> k > next) && referenced(
                    base.inventory,
                    #[trigger] rows[k],
                )) ==> o.failure == Some(ErrorKind::ReferentialBlock)
        }),
    decreases rows.len() - next, (if phase == DeletePhase::Count { 1nat } else { 0nat }),
{
    let restored = StoreModel { tables: base, saved: None };
    assert(m.answer(Request::Rollback).0.tables == base);
    match phase {
        DeletePhase::Count => {
            if !referenced(m.tables.inventory, rows[next]) {
                lemma_delete_rows(m, rows, next, DeletePhase::Delete, base);
            }
        },
        DeletePhase::Delete => {
            let (tables, reply) = m.tables.delete_good(rows[next].goods_id);
            let after = StoreModel { tables, saved: m.saved };
            assert(after.answer(Request::Rollback).0.tables == base);
            if reply == ReplyView::Done && next + 1 < rows.len() {
                lemma_delete_rows(after, rows, next + 1, DeletePhase::Count, base);
            }
        },
    }
}

/// The delete of goods is all or nothing: where it fails, for whatever
/// reason, the store is as it was, and nothing is reported as deleted.
pub proof fn law_delete_goods_is_all_or_nothing(m: StoreModel, params: GoodsSearchParams)
    requires
        m.saved is None,
    ensures
        ({
            let o = step_outcome(GoodsDelete::start(params), m);
            o.failure is Some ==> o.store == m && o.produced.len() == 0
        }),
{
    if !params.is_empty() {
        let opened = m.answer(Request::Begin).0;
        let rows = opened.tables.select_goods(params);
        lemma_after_nothing(delete_selected(opened, params));
        assert(opened.answer(Request::Rollback).0 == m);
        if rows.len() > 0 {
            lemma_delete_rows(opened, rows, 0, DeletePhase::Count, m.tables);
        }
    }
}

/// Deleting is blocked by references: where a lot refers to one of the
/// goods that the filter selects, the delete fails with `ReferentialBlock`,
/// and every good is still there: the store is as it was.
pub proof fn law_delete_goods_is_blocked_by_references(
    m: StoreModel,
    params: GoodsSearchParams,
    k: int,
)
    requires
        m.saved is None,
        !params.is_empty(),
        0 <= k < m.tables.select_goods(params).len(),
        referenced(m.tables.inventory, m.tables.select_goods(params)[k]),
    ensures
        step_outcome(GoodsDelete::start(params), m) == Outcome::<Seq<GoodView>>::fails(
            m,
            ErrorKind::ReferentialBlock,
        ),
{
    let opened = m.answer(Request::Begin).0;
    let rows = opened.tables.select_goods(params);
    lemma_after_nothing(delete_selected(opened, params));
    lemma_delete_rows(opened, rows, 0, DeletePhase::Count, m.tables);
    let o = delete_rows(opened, rows, 0, DeletePhase::Count);
    assert(o.produced =~= Seq::<Seq<GoodView>>::empty());
}

/// In tables that are in order, a lot is the first with its key.
pub proof fn lemma_item_is_first_with_its_id(t: Tables, j: int)
    requires
        t.wf(),
        0 <= j < t.inventory.len(),
    ensures
        first_index(t.inventory, has_item_id(t.inventory[j].item_id), 0) == Some(j),
{
    let pred = has_item_id(t.inventory[j].item_id);
    assert forall|k: int| 0 <= k < j implies !pred(#[trigger] t.inventory[k]) by {
        assert(t.inventory[k].item_id < t.inventory[j].item_id);
    }
    lemma_first_index_is(t.inventory, pred, 0, j);
}

/// What the reading of a lot gives, in tables that are in order: the lot at
/// `j` with its good.
pub proof fn lemma_loaded(m: StoreModel, j: int, created: bool, lot: Lot)
    requires
        m.tables.wf(),
        0 <= j < m.tables.inventory.len(),
    ensures
        ({
            let o = loaded(m, m.tables.inventory[j].item_id, created, lot);
            &&& o.store == m
            &&& o.failure is None ==> {
                &&& o.produced.len() == 1
                &&& o.produced[0].item.item == m.tables.inventory[j]
                &&& o.produced[0].was_created == created
                &&& o.produced[0].already_expired == lot.already_expired
            }
        }),
{
    lemma_item_is_first_with_its_id(m.tables, j);
}

/// What an insert comes to once the good is settled, in tables that are in
/// order. Where it succeeds, the lot that it gives is a lot of that good
/// with the expiry date that was asked for: a lot with a date is never
/// taken for one without, nor one without for one with. And a second
/// insert for the same good and date gives the same lot, creates nothing
/// and leaves the store as it is, whatever quantity it asks for.
pub proof fn lemma_stocked(m: StoreModel, goods_id: i32, first: Lot, second: Lot)
    requires
        m.tables.wf(),
        first.expired_date == second.expired_date,
        stocked(m, goods_id, first).failure is None,
    ensures
        ({
            let one = stocked(m, goods_id, first);
            let two = stocked(one.store, goods_id, second);
            &&& one.produced.len() == 1
            &&& one.produced[0].item.item.goods_id == goods_id
            &&& one.produced[0].item.item.expired_date == first.expired_date
            &&& one.produced[0].was_created ==> one.produced[0].item.item.quantity
                == first.quantity
            &&& one.store.tables.goods == m.tables.goods
            &&& one.store.tables.wf()
            &&& two.failure is None
            &&& two.produced.len() == 1
            &&& two.produced[0].item == one.produced[0].item
            &&& !two.produced[0].was_created
            &&& two.store == one.store
        }),
{
    let pred = has_key(goods_id, first.expired_date);
    let inventory = m.tables.inventory;
    let one = stocked(m, goods_id, first);
    match first_index(inventory, pred, 0) {
        Some(j) => {
            lemma_first_index_found(inventory, pred, 0);
            lemma_loaded(m, j, false, first);
            lemma_loaded(m, j, false, second);
        },
        None => {
            lemma_first_index_none(inventory, pred, 0);
            let (tables, reply) = m.tables.insert_item(
                goods_id,
                first.quantity,
                first.expired_date,
            );
            let after = StoreModel { tables, saved: m.saved };
            let row = InventoryItem {
                item_id: m.tables.next_item_id,
                goods_id,
                quantity: first.quantity,
                expired_date: first.expired_date,
            };
            assert(reply == ReplyView::Items(seq![row]));
            assert(tables.inventory == inventory.push(row));
            let j = inventory.len() as int;
            assert(tables.wf()) by {
                assert forall|a: int, b: int| 0 <= a < b < tables.inventory.len() implies (
                #[trigger] tables.inventory[a]).item_id < (#[trigger] tables.inventory[b]).item_id by {
                    if b < j {
                        assert(tables.inventory[a] == inventory[a]);
                        assert(tables.inventory[b] == inventory[b]);
                    } else {
                        assert(tables.inventory[a] == inventory[a]);
                    }
                }
                assert forall|a: int| 0 <= a < tables.inventory.len() implies (
                #[trigger] tables.inventory[a]).item_id < tables.next_item_id by {
                    if a < j {
                        assert(tables.inventory[a] == inventory[a]);
                    }
                }
            }
            assert(tables.inventory[j] == row);
            lemma_loaded(after, j, true, first);
            assert(pred(row));
            lemma_first_index_of_pushed(inventory, pred, row);
            lemma_loaded(after, j, false, second);
        },
    }
}

/// Inserting a lot is idempotent on the good and the expiry date: after an
/// insert that named the good by its key and succeeded, an insert for the
/// same good and the same expiry date, a missing date being a date of its
/// own, gives the same lot with its quantity unchanged, creates nothing,
/// and leaves the store as it is. The lot that an insert gives has the
/// expiry date that was asked for, so a lot with a date never stands for
/// one without.
pub proof fn law_insert_item_is_idempotent(
    m: StoreModel,
    first: CreateInventoryRequest,
    second: CreateInventoryRequest,
    now: Timestamp,
    later: Timestamp,
    blank: String,
)
    requires
        m.tables.wf(),
        first.goods_id is Some,
        second.goods_id == first.goods_id,
        second.expired_date == first.expired_date,
        step_outcome(InventoryInsert::start(first, now, blank), m).failure is None,
    ensures
        ({
            let one = step_outcome(InventoryInsert::start(first, now, blank), m);
            let two = step_outcome(InventoryInsert::start(second, later, blank), one.store);
            &&& one.produced.len() == 1
            &&& one.produced[0].item.item.expired_date == first.expired_date
            &&& two.failure is None
            &&& two.produced.len() == 1
            &&& two.produced[0].item == one.produced[0].item
            &&& !two.produced[0].was_created
            &&& two.store == one.store
        }),
{
    let goods_id = first.goods_id->0;
    let a = Lot::of(first, now);
    let b = Lot::of(second, later);
    lemma_after_nothing(stocked(m, goods_id, a));
    lemma_stocked(m, goods_id, a, b);
    let one = stocked(m, goods_id, a);
    lemma_after_nothing(stocked(one.store, goods_id, b));
}

/// The row is a lot of the tables with its good.
pub open spec fn row_from(t: Tables, row: InventoryItemWithGoodsView) -> bool {
    exists|j: int|
        0 <= j < t.inventory.len() && #[trigger] t.inventory[j] == row.item && join_row(
            t.goods,
            t.inventory[j],
        ) == seq![row]
}

/// Every row of the join is a lot of the tables with its good.
pub proof fn lemma_joined_members(t: Tables, from: int, i: int)
    requires
        0 <= from,
        0 <= i < joined(t.goods, t.inventory, from).len(),
    ensures
        row_from(t, joined(t.goods, t.inventory, from)[i]),
    decreases t.inventory.len() - from,
{
    if from < t.inventory.len() {
        let head = join_row(t.goods, t.inventory[from]);
        let rest = joined(t.goods, t.inventory, from + 1);
        if i < head.len() {
            assert(head.len() == 1);
            assert((head + rest)[i] == head[0]);
            assert(t.inventory[from] == head[0].item);
        } else {
            assert((head + rest)[i] == rest[i - head.len()]);
            lemma_joined_members(t, from + 1, i - head.len());
        }
    }
}

/// Every row that a filter on inventory selects is a lot of the tables with
/// its good.
pub proof fn lemma_selected_members(t: Tables, p: InventorySearchParams, i: int)
    requires
        0 <= i < t.select_inventory(p).len(),
    ensures
        row_from(t, t.select_inventory(p)[i]),
{
    let all = joined(t.goods, t.inventory, 0);
    lemma_filtered_members(all, inventory_match(p), 0, i);
    let k = choose|k: int|
        0 <= k < all.len() && #[trigger] all[k] == filtered(all, inventory_match(p), 0)[i]
            && inventory_match(p)(all[k]);
    lemma_joined_members(t, 0, k);
}

/// The lots are those of `base`, but for their quantities; the goods are
/// those of `base`.
pub open spec fn same_but_quantities(t: Tables, base: Tables) -> bool {
    &&& t.goods == base.goods
    &&& t.inventory.len() == base.inventory.len()
    &&& forall|j: int|
        0 <= j < base.inventory.len() ==> {
            &&& (#[trigger] t.inventory[j]).item_id == base.inventory[j].item_id
            &&& t.inventory[j].goods_id == base.inventory[j].goods_id
            &&& t.inventory[j].expired_date == base.inventory[j].expired_date
        }
}

/// The lot with quantity `q` and nothing else changed.
pub open spec fn with_quantity(item: InventoryItem, q: i32) -> InventoryItem {
    InventoryItem { quantity: q, ..item }
}

/// What an update that sets only the quantity comes to from the lot
/// `rows[next]` on: every row that it produces is the selected row with the
/// new quantity.
pub proof fn lemma_update_quantity(
    base: Tables,
    m: StoreModel,
    patch: ItemPatch,
    rows: Seq<InventoryItemWithGoodsView>,
    next: int,
    phase: UpdatePhase,
    q: i32,
)
    requires
        base.wf(),
        patch.good.is_empty(),
        patch.quantity == Some(q),
        patch.expired_date is None,
        0 <= next <= rows.len(),
        forall|k: int| 0 <= k < rows.len() ==> row_from(base, #[trigger] rows[k]),
        same_but_quantities(m.tables, base),
        phase != UpdatePhase::Good,
        (phase == UpdatePhase::Commit || phase == UpdatePhase::Load) ==> next < rows.len()
            && forall|j: int|
            0 <= j < base.inventory.len() && (#[trigger] base.inventory[j]).item_id
                == rows[next].item.item_id ==> m.tables.inventory[j].quantity == q,
    ensures
        ({
            let o = update_lots(m, patch, rows, next, phase);
            forall|i: int|
                0 <= i < o.produced.len() ==> {
                    &&& next + i < rows.len()
                    &&& (#[trigger] o.produced[i]).good == rows[next + i].good
                    &&& o.produced[i].item == with_quantity(rows[next + i].item, q)
                }
        }),
    decreases rows.len() - next, 4 - phase.index(),
{
    if next < rows.len() {
        let row = rows[next];
        assert(row_from(base, row));
        let j = choose|j: int|
            0 <= j < base.inventory.len() && #[trigger] base.inventory[j] == row.item && join_row(
                base.goods,
                base.inventory[j],
            ) == seq![row];
        let pred = has_item_id(row.item.item_id);
        let inventory = m.tables.inventory;
        assert(inventory[j].item_id == row.item.item_id);
        assert forall|k: int| 0 <= k < j implies !pred(#[trigger] inventory[k]) by {
            assert(inventory[k].item_id == base.inventory[k].item_id);
            assert(base.inventory[k].item_id < base.inventory[j].item_id);
        }
        lemma_first_index_is(inventory, pred, 0, j);
        match phase {
            UpdatePhase::Begin => {
                lemma_update_quantity(
                    base,
                    m.answer(Request::Begin).0,
                    patch,
                    rows,
                    next,
                    UpdatePhase::Item,
                    q,
                );
            },
            UpdatePhase::Good => {},
            UpdatePhase::Item => {
                let (tables, reply) = m.tables.update_item(
                    row.item.item_id,
                    patch.quantity,
                    patch.expired_date,
                );
                let after = StoreModel { tables, saved: m.saved };
                if reply == ReplyView::Done {
                    assert(tables.inventory == inventory.update(j, inventory[j].patched(Some(q), None)));
                    assert forall|k: int|
                        0 <= k < base.inventory.len() && (#[trigger] base.inventory[k]).item_id
                            == row.item.item_id implies tables.inventory[k].quantity == q by {
                        if k != j {
                            if k < j {
                                assert(base.inventory[k].item_id < base.inventory[j].item_id);
                            } else {
                                assert(base.inventory[j].item_id < base.inventory[k].item_id);
                            }
                        }
                    }
                    lemma_update_quantity(base, after, patch, rows, next, UpdatePhase::Commit, q);
                }
            },
            UpdatePhase::Commit => {
                lemma_update_quantity(
                    base,
                    m.answer(Request::Commit).0,
                    patch,
                    rows,
                    next,
                    UpdatePhase::Load,
                    q,
                );
            },
            UpdatePhase::Load => {
                let loaded = m.tables.inventory_by_item_id(row.item.item_id);
                assert(loaded == join_row(m.tables.goods, inventory[j]));
                assert(inventory[j].goods_id == base.inventory[j].goods_id);
                if loaded.len() > 0 {
                    let rest = update_lots(m, patch, rows, next + 1, UpdatePhase::Begin);
                    lemma_update_quantity(base, m, patch, rows, next + 1, UpdatePhase::Begin, q);
                    let o = rest.after(seq![loaded[0]]);
                    let found = first_index(base.goods, has_goods_id(row.item.goods_id), 0);
                    assert(base.inventory[j].goods_id == row.item.goods_id);
                    assert(join_row(base.goods, base.inventory[j])[0] == row);
                    assert(found is Some);
                    assert(row.good == base.goods[found->0]);
                    assert(loaded[0].good == m.tables.goods[found->0]);
                    assert(loaded[0].good == row.good);
                    assert(loaded[0].item == with_quantity(row.item, q));
                    assert forall|i: int| 0 <= i < o.produced.len() implies {
                        &&& next + i < rows.len()
                        &&& (#[trigger] o.produced[i]).good == rows[next + i].good
                        &&& o.produced[i].item == with_quantity(rows[next + i].item, q)
                    } by {
                        if i > 0 {
                            assert(o.produced[i] == rest.produced[i - 1]);
                        }
                    }
                }
            },
        }
    }
}

/// A patch that sets only the quantity changes only the quantity: every row
/// that the update produces is the row that the filter selected, at the
/// same place, with its expiry date and every field of its good as they
/// were, and with the new quantity.
pub proof fn law_update_of_quantity_leaves_the_rest(
    m: StoreModel,
    params: InventorySearchParams,
    none: UpdateInventoryRequest,
    q: i32,
)
    requires
        m.tables.wf(),
        none.is_empty(),
    ensures
        ({
            let request = UpdateInventoryRequest { quantity: Some(q), ..none };
            let o = step_outcome(InventoryUpdate::start(params, request), m);
            let rows = m.tables.select_inventory(params);
            forall|i: int|
                0 <= i < o.produced.len() ==> {
                    &&& i < rows.len()
                    &&& (#[trigger] o.produced[i]).good == rows[i].good
                    &&& o.produced[i].item.expired_date == rows[i].item.expired_date
                    &&& o.produced[i].item == with_quantity(rows[i].item, q)
                }
        }),
{
    let request = UpdateInventoryRequest { quantity: Some(q), ..none };
    if !params.is_empty() {
        let patch = ItemPatch::of(request);
        let rows = m.tables.select_inventory(params);
        assert forall|k: int| 0 <= k < rows.len() implies row_from(m.tables, #[trigger] rows[k]) by {
            lemma_selected_members(m.tables, params, k);
        }
        if rows.len() > 0 {
            lemma_update_quantity(m.tables, m, patch, rows, 0, UpdatePhase::Begin, q);
            lemma_after_nothing(update_lots(m, patch, rows, 0, UpdatePhase::Begin));
        }
    }
}

/// No request takes the tables out of order.
pub proof fn lemma_tables_stay_in_order(t: Tables, request: Request)
    requires
        t.wf(),
    ensures
        t.answer(request).0.wf(),
        t.answer(request).0.next_goods_id >= t.next_goods_id,
        t.answer(request).0.next_item_id >= t.next_item_id,
{
    let after = t.answer(request).0;
    match request {
        Request::InsertGood(draft) => {
            if after != t {
                let row = draft.row(t.next_goods_id);
                assert(after.goods == t.goods.push(row));
                assert forall|i: int, j: int| 0 <= i < j < after.goods.len() implies (
                #[trigger] after.goods[i]).goods_id < (#[trigger] after.goods[j]).goods_id by {
                    assert(after.goods[i] == t.goods[i]);
                    if j < t.goods.len() {
                        assert(after.goods[j] == t.goods[j]);
                    }
                }
                assert forall|i: int| 0 <= i < after.goods.len() implies (
                #[trigger] after.goods[i]).goods_id < after.next_goods_id by {
                    if i < t.goods.len() {
                        assert(after.goods[i] == t.goods[i]);
                    }
                }
            }
        },
        Request::UpdateGood { goods_id, patch } => {
            if after != t {
                let k = first_index(t.goods, has_goods_id(goods_id), 0)->0;
                lemma_first_index_found(t.goods, has_goods_id(goods_id), 0);
                let row = patch.apply(t.goods[k]);
                assert(after.goods == t.goods.update(k, row));
                assert forall|i: int| 0 <= i < after.goods.len() implies (
                #[trigger] after.goods[i]).goods_id == t.goods[i].goods_id by {}
                assert forall|i: int, j: int| 0 <= i < j < after.goods.len() implies (
                #[trigger] after.goods[i]).goods_id < (#[trigger] after.goods[j]).goods_id by {
                    assert(t.goods[i].goods_id < t.goods[j].goods_id);
                }
            }
        },
        Request::DeleteGood(id) => {
            if after != t {
                let k = first_index(t.goods, has_goods_id(id), 0)->0;
                lemma_first_index_found(t.goods, has_goods_id(id), 0);
                assert(after.goods == t.goods.remove(k));
                assert forall|i: int| 0 <= i < after.goods.len() implies #[trigger] after.goods[i]
                    == t.goods[if i < k {
                    i
                } else {
                    i + 1
                }] by {}
                assert forall|i: int, j: int| 0 <= i < j < after.goods.len() implies (
                #[trigger] after.goods[i]).goods_id < (#[trigger] after.goods[j]).goods_id by {
                    let a = if i < k {
                        i
                    } else {
                        i + 1
                    };
                    let b = if j < k {
                        j
                    } else {
                        j + 1
                    };
                    assert(t.goods[a].goods_id < t.goods[b].goods_id);
                }
            }
        },
        Request::InsertItem { goods_id, quantity, expired_date } => {
            if after != t {
                let row = InventoryItem { item_id: t.next_item_id, goods_id, quantity, expired_date };
                assert(after.inventory == t.inventory.push(row));
                assert forall|i: int, j: int| 0 <= i < j < after.inventory.len() implies (
                #[trigger] after.inventory[i]).item_id < (#[trigger] after.inventory[j]).item_id by {
                    assert(after.inventory[i] == t.inventory[i]);
                    if j < t.inventory.len() {
                        assert(after.inventory[j] == t.inventory[j]);
                    }
                }
                assert forall|i: int| 0 <= i < after.inventory.len() implies (
                #[trigger] after.inventory[i]).item_id < after.next_item_id by {
                    if i < t.inventory.len() {
                        assert(after.inventory[i] == t.inventory[i]);
                    }
                }
            }
        },
        Request::UpdateItem { item_id, quantity, expired_date } => {
            if after != t {
                let k = first_index(t.inventory, has_item_id(item_id), 0)->0;
                lemma_first_index_found(t.inventory, has_item_id(item_id), 0);
                let row = t.inventory[k].patched(quantity, expired_date);
                assert(after.inventory == t.inventory.update(k, row));
                assert forall|i: int| 0 <= i < after.inventory.len() implies (
                #[trigger] after.inventory[i]).item_id == t.inventory[i].item_id by {}
                assert forall|i: int, j: int| 0 <= i < j < after.inventory.len() implies (
                #[trigger] after.inventory[i]).item_id < (#[trigger] after.inventory[j]).item_id by {
                    assert(t.inventory[i].item_id < t.inventory[j].item_id);
                }
            }
        },
        Request::DeleteItem(id) => {
            if after != t {
                let k = first_index(t.inventory, has_item_id(id), 0)->0;
                lemma_first_index_found(t.inventory, has_item_id(id), 0);
                assert(after.inventory == t.inventory.remove(k));
                assert forall|i: int| 0 <= i < after.inventory.len() implies
                    #[trigger] after.inventory[i] == t.inventory[if i < k {
                    i
                } else {
                    i + 1
                }] by {}
                assert forall|i: int, j: int| 0 <= i < j < after.inventory.len() implies (
                #[trigger] after.inventory[i]).item_id < (#[trigger] after.inventory[j]).item_id by {
                    let a = if i < k {
                        i
                    } else {
                        i + 1
                    };
                    let b = if j < k {
                        j
                    } else {
                        j + 1
                    };
                    assert(t.inventory[a].item_id < t.inventory[b].item_id);
                }
            }
        },
        _ => {},
    }
}

/// The store stays in order: the empty store is, and no request, inside a
/// transaction or outside, takes it out of order. So the keys of each table
/// ascend, and no key is given out twice, in every store that is reached
/// from the empty one.
pub proof fn law_store_stays_in_order(m: StoreModel, request: Request)
    requires
        m.wf(),
    ensures
        StoreModel::empty().wf(),
        m.answer(request).0.wf(),
{
    lemma_tables_stay_in_order(m.tables, request);
}

/// The keys of a sequence ascend.
pub open spec fn ascending<T>(s: Seq<T>, key: spec_fn(T) -> int) -> bool {
    forall|i: int, j: int| 0 <= i < j < s.len() ==> key(#[trigger] s[i]) < key(#[trigger] s[j])
}

/// The key of a good.
pub open spec fn goods_key() -> spec_fn(GoodView) -> int {
    |g: GoodView| g.goods_id as int
}

/// The key of the lot of a row.
pub open spec fn item_key() -> spec_fn(InventoryItemWithGoodsView) -> int {
    |row: InventoryItemWithGoodsView| row.item.item_id as int
}

/// What is selected from a sequence in ascending order is in ascending
/// order, and no smaller than where the selection began.
pub proof fn lemma_filtered_ascends<T>(
    s: Seq<T>,
    pred: spec_fn(T) -> bool,
    key: spec_fn(T) -> int,
    from: int,
)
    requires
        0 <= from,
        ascending(s, key),
    ensures
        ascending(filtered(s, pred, from), key),
        forall|i: int|
            0 <= i < filtered(s, pred, from).len() && from < s.len() ==> key(s[from]) <= key(
                #[trigger] filtered(s, pred, from)[i],
            ),
    decreases s.len() - from,
{
    if from < s.len() {
        lemma_filtered_ascends(s, pred, key, from + 1);
        let rest = filtered(s, pred, from + 1);
        let all = filtered(s, pred, from);
        if from + 1 < s.len() {
            assert(key(s[from]) < key(s[from + 1]));
        }
        if pred(s[from]) {
            assert forall|i: int, j: int| 0 <= i < j < all.len() implies key(#[trigger] all[i])
                < key(#[trigger] all[j]) by {
                assert(all[j] == rest[j - 1]);
                if i > 0 {
                    assert(all[i] == rest[i - 1]);
                }
            }
            assert forall|i: int| 0 <= i < all.len() implies key(s[from]) <= key(
                #[trigger] all[i],
            ) by {
                if i > 0 {
                    assert(all[i] == rest[i - 1]);
                }
            }
        }
    }
}

/// The rows of the join of tables in order ascend by the key of the lot.
pub proof fn lemma_joined_ascends(t: Tables, from: int)
    requires
        0 <= from,
        t.wf(),
    ensures
        ascending(joined(t.goods, t.inventory, from), item_key()),
        forall|i: int|
            0 <= i < joined(t.goods, t.inventory, from).len() && from < t.inventory.len()
                ==> t.inventory[from].item_id <= (#[trigger] joined(
                t.goods,
                t.inventory,
                from,
            )[i]).item.item_id,
    decreases t.inventory.len() - from,
{
    if from < t.inventory.len() {
        lemma_joined_ascends(t, from + 1);
        let head = join_row(t.goods, t.inventory[from]);
        let rest = joined(t.goods, t.inventory, from + 1);
        let all = joined(t.goods, t.inventory, from);
        if from + 1 < t.inventory.len() {
            assert(t.inventory[from].item_id < t.inventory[from + 1].item_id);
        }
        assert forall|i: int| 0 <= i < all.len() implies t.inventory[from].item_id <= (
        #[trigger] all[i]).item.item_id by {
            if i >= head.len() {
                assert(all[i] == rest[i - head.len()]);
            }
        }
        assert forall|i: int, j: int| 0 <= i < j < all.len() implies item_key()(#[trigger] all[i])
            < item_key()(#[trigger] all[j]) by {
            assert(all[j] == rest[j - head.len()]);
            if i >= head.len() {
                assert(all[i] == rest[i - head.len()]);
            }
        }
    }
}

/// Every search answers in the order of the keys: the goods that a filter
/// selects ascend by the key of the good, the lots by the key of the lot,
/// and no row comes twice.
pub proof fn law_search_is_in_key_order(t: Tables, p: GoodsSearchParams, q: InventorySearchParams)
    requires
        t.wf(),
    ensures
        ascending(t.select_goods(p), goods_key()),
        ascending(t.select_inventory(q), item_key()),
{
    assert(ascending(t.goods, goods_key())) by {
        assert forall|i: int, j: int| 0 <= i < j < t.goods.len() implies goods_key()(
            #[trigger] t.goods[i],
        ) < goods_key()(#[trigger] t.goods[j]) by {
            assert(t.goods[i].goods_id < t.goods[j].goods_id);
        }
    }
    lemma_filtered_ascends(t.goods, goods_match(p), goods_key(), 0);
    lemma_joined_ascends(t, 0);
    lemma_filtered_ascends(joined(t.goods, t.inventory, 0), inventory_match(q), item_key(), 0);
}

/// What the delete of lots comes to from the lot `rows[next]` on leaves
/// every good as it is.
pub proof fn lemma_delete_lots_leaves_goods(
    m: StoreModel,
    rows: Seq<InventoryItemWithGoodsView>,
    next: int,
)
    requires
        0 <= next,
    ensures
        delete_lots(m, rows, next).store.tables.goods == m.tables.goods,
        delete_lots(m, rows, next).store.saved == m.saved,
        delete_lots(m, rows, next).failure is None,
    decreases rows.len() - next,
{
    if next < rows.len() {
        let after = StoreModel {
            tables: m.tables.delete_item(rows[next].item.item_id),
            saved: m.saved,
        };
        lemma_delete_lots_leaves_goods(after, rows, next + 1);
    }
}

/// Deleting lots never touches a good: whatever the filter and whatever
/// comes of the delete, the goods are as they were.
pub proof fn law_delete_inventory_leaves_goods(m: StoreModel, params: InventorySearchParams)
    ensures
        step_outcome(InventoryDelete::start(params), m).store.tables.goods == m.tables.goods,
{
    if !params.is_empty() {
        let rows = m.tables.select_inventory(params);
        if rows.len() > 0 {
            lemma_delete_lots_leaves_goods(m, rows, 0);
            lemma_after_nothing(delete_lots(m, rows, 0));
        }
    }
}

/// A filter or a patch without any field is refused before the store is
/// asked anything: the operation is over at its start, with
/// `InvalidInput`, and the store is as it was.
pub proof fn law_invalid_input_asks_nothing(
    m: StoreModel,
    goods: GoodsSearchParams,
    inventory: InventorySearchParams,
    good_patch: UpdateGoodRequest,
    item_patch: UpdateInventoryRequest,
)
    ensures
        goods.is_empty() || good_patch.is_empty() ==> step_outcome(
            GoodsUpdate::start(goods, good_patch),
            m,
        ) == Outcome::<GoodView>::fails(m, ErrorKind::InvalidInput),
        goods.is_empty() ==> step_outcome(GoodsDelete::start(goods), m) == Outcome::<
            Seq<GoodView>,
        >::fails(m, ErrorKind::InvalidInput),
        inventory.is_empty() || item_patch.is_empty() ==> step_outcome(
            InventoryUpdate::start(inventory, item_patch),
            m,
        ) == Outcome::<InventoryItemWithGoodsView>::fails(m, ErrorKind::InvalidInput),
        inventory.is_empty() ==> step_outcome(InventoryDelete::start(inventory), m) == Outcome::<
            i32,
        >::fails(m, ErrorKind::InvalidInput),
{
}

/// The goods have the keys of `base`, at the same places.
pub open spec fn same_goods_keys(t: Tables, base: Tables) -> bool {
    &&& t.goods.len() == base.goods.len()
    &&& forall|k: int|
        0 <= k < base.goods.len() ==> (#[trigger] t.goods[k]).goods_id == base.goods[k].goods_id
}

/// What the patching of goods comes to from the good `rows[next]` on, where
/// the goods still to be patched are as they were in `base`: every row that
/// it produces is the stored row with the patch applied.
pub proof fn lemma_patch_goods(
    base: Tables,
    m: StoreModel,
    patch: UpdateGoodRequest,
    rows: Seq<GoodView>,
    next: int,
)
    requires
        base.wf(),
        0 <= next <= rows.len(),
        ascending(rows, goods_key()),
        forall|j: int|
            0 <= j < rows.len() ==> exists|k: int|
                0 <= k < base.goods.len() && #[trigger] base.goods[k] == #[trigger] rows[j],
        same_goods_keys(m.tables, base),
        forall|j: int, k: int|
            next <= j < rows.len() && 0 <= k < base.goods.len() && #[trigger] base.goods[k]
                == #[trigger] rows[j] ==> m.tables.goods[k] == base.goods[k],
    ensures
        ({
            let o = patch_goods(m, patch, rows, next);
            forall|i: int|
                0 <= i < o.produced.len() ==> next + i < rows.len() && #[trigger] o.produced[i]
                    == patch.apply(rows[next + i])
        }),
    decreases rows.len() - next,
{
    if next < rows.len() {
        let row = rows[next];
        let k = choose|k: int| 0 <= k < base.goods.len() && #[trigger] base.goods[k] == rows[next];
        let goods = m.tables.goods;
        let pred = has_goods_id(row.goods_id);
        assert(goods[k] == row);
        assert forall|a: int| 0 <= a < k implies !pred(#[trigger] goods[a]) by {
            assert(goods[a].goods_id == base.goods[a].goods_id);
            assert(base.goods[a].goods_id < base.goods[k].goods_id);
        }
        lemma_first_index_is(goods, pred, 0, k);
        let (tables, reply) = m.tables.update_good(row.goods_id, patch);
        let after = StoreModel { tables, saved: m.saved };
        if reply == ReplyView::Goods(seq![patch.apply(row)]) {
            assert(tables.goods == goods.update(k, patch.apply(row)));
            assert forall|j: int, b: int|
                next + 1 <= j < rows.len() && 0 <= b < base.goods.len() && #[trigger] base.goods[b]
                    == #[trigger] rows[j] implies tables.goods[b] == base.goods[b] by {
                assert(goods_key()(rows[next]) < goods_key()(rows[j]));
                assert(b != k);
            }
            lemma_patch_goods(base, after, patch, rows, next + 1);
            let rest = patch_goods(after, patch, rows, next + 1);
            let o = rest.after(seq![patch.apply(row)]);
            assert forall|i: int| 0 <= i < o.produced.len() implies next + i < rows.len()
                && #[trigger] o.produced[i] == patch.apply(rows[next + i]) by {
                if i > 0 {
                    assert(o.produced[i] == rest.produced[i - 1]);
                }
            }
        }
    }
}

/// A patch changes what it names and nothing else: every row that an
/// update of goods produces is the row that the filter selected, at the
/// same place, with the fields of the patch that are present in place of
/// the stored ones and every other field as it was.
pub proof fn law_update_goods_applies_the_patch(
    m: StoreModel,
    params: GoodsSearchParams,
    patch: UpdateGoodRequest,
)
    requires
        m.tables.wf(),
    ensures
        ({
            let o = step_outcome(GoodsUpdate::start(params, patch), m);
            let rows = m.tables.select_goods(params);
            forall|i: int|
                0 <= i < o.produced.len() ==> i < rows.len() && #[trigger] o.produced[i]
                    == patch.apply(rows[i])
        }),
{
    if !(params.is_empty() || patch.is_empty()) {
        let rows = m.tables.select_goods(params);
        law_search_is_in_key_order(m.tables, params, InventorySearchParams {
            item_id: None,
            quantity: None,
            min_quantity: None,
            max_quantity: None,
            expired_date: None,
            min_expired_date: None,
            max_expired_date: None,
            goods_params: params,
        });
        assert forall|j: int| 0 <= j < rows.len() implies exists|k: int|
            0 <= k < m.tables.goods.len() && #[trigger] m.tables.goods[k] == #[trigger] rows[j] by {
            lemma_filtered_members(m.tables.goods, goods_match(params), 0, j);
            let k = choose|k: int|
                0 <= k < m.tables.goods.len() && #[trigger] m.tables.goods[k] == filtered(
                    m.tables.goods,
                    goods_match(params),
                    0,
                )[j] && goods_match(params)(m.tables.goods[k]);
            assert(m.tables.goods[k] == rows[j]);
        }
        if rows.len() > 0 {
            lemma_patch_goods(m.tables, m, patch, rows, 0);
            lemma_after_nothing(patch_goods(m, patch, rows, 0));
        }
    }
}

} // verus!
