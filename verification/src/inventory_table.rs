//! Inventory: stocked lots of goods, what callers send to create, change and
//! find them, and the statements that do so.

use crate::datetime::Timestamp;
use crate::decimal::Decimal;
use crate::goods_table::{lemma_goods_shapes, Good, GoodView, GoodsSearchParams, UpdateGoodRequest};
use crate::sql::{
    add_int, add_timestamp, binds_of, int_predicate, lemma_shapes_with,
    lemma_text_depends_on_shape, search_sql, timestamp_predicate, values, Column, CompiledFilter,
    Operator, Predicate, SqlType, Statement, Value, ValueView,
};
use crate::text::{copy_text_list, text_list, texts};
use vstd::prelude::*;
use vstd::string::*;

verus! {

/// The ordered scan of all inventory, each item with its good.
pub const INVENTORY_SCAN: &'static str =
    "SELECT i.item_id, i.goods_id, i.quantity, i.expired_date, g.material_code, g.goods_name, g.description, g.price, g.volumn_l, g.mass_g, g.mass_base, g.volumn_base FROM inventory i INNER JOIN goods g ON i.goods_id = g.goods_id ORDER BY i.item_id ASC";

/// The head of a filtered search on inventory.
pub const INVENTORY_SEARCH_HEAD: &'static str =
    "SELECT i.item_id, i.goods_id, i.quantity, i.expired_date, g.material_code, g.goods_name, g.description, g.price, g.volumn_l, g.mass_g, g.mass_base, g.volumn_base FROM inventory i INNER JOIN goods g ON i.goods_id = g.goods_id WHERE 1=1";

/// The order of every search on inventory: by key, ascending.
pub const INVENTORY_ORDER: &'static str = " ORDER BY i.item_id ASC";

/// The item with a given key, with its good.
pub const INVENTORY_BY_ITEM_ID: &'static str =
    "SELECT i.item_id, i.goods_id, i.quantity, i.expired_date, g.material_code, g.goods_name, g.description, g.price, g.volumn_l, g.mass_g, g.mass_base, g.volumn_base FROM inventory i INNER JOIN goods g ON i.goods_id = g.goods_id WHERE i.item_id = $1";

/// The item of a good that expires at a given time.
pub const ITEM_BY_DATED_KEY: &'static str =
    "SELECT item_id, goods_id, quantity, expired_date FROM inventory WHERE goods_id = $1 AND expired_date = $2";

/// The item of a good that never expires.
pub const ITEM_BY_UNDATED_KEY: &'static str =
    "SELECT item_id, goods_id, quantity, expired_date FROM inventory WHERE goods_id = $1 AND expired_date IS NULL";

/// A new item; the store assigns the key and returns the row.
pub const ITEM_INSERT: &'static str =
    "INSERT INTO inventory (goods_id, quantity, expired_date) VALUES ($1, $2, $3) RETURNING item_id, goods_id, quantity, expired_date";

/// A patch on one item: a column changes only where its value is not null.
pub const ITEM_UPDATE: &'static str =
    "UPDATE inventory SET quantity = COALESCE($2, quantity), expired_date = COALESCE($3, expired_date) WHERE item_id = $1";

/// The end of one item.
pub const ITEM_DELETE: &'static str = "DELETE FROM inventory WHERE item_id = $1";

/// A stocked lot of a good. No expiry date means that the lot never expires.
#[derive(Clone, Copy, Debug, PartialEq, Eq, Structural)]
pub struct InventoryItem {
    pub item_id: i32,
    pub goods_id: i32,
    pub quantity: i32,
    pub expired_date: Option<Timestamp>,
}

/// A stocked lot together with its good, as every operation on inventory
/// returns it.
#[derive(Debug, PartialEq)]
pub struct InventoryItemWithGoods {
    pub item_id: i32,
    pub goods_id: i32,
    pub material_code: String,
    pub goods_name: String,
    pub description: Option<Vec<String>>,
    pub price: Decimal,
    pub volumn_l: Decimal,
    pub mass_g: Decimal,
    pub mass_base: i16,
    pub volumn_base: i16,
    pub quantity: i32,
    pub expired_date: Option<Timestamp>,
}

/// A stocked lot with its good, as plain data.
pub struct InventoryItemWithGoodsView {
    pub item: InventoryItem,
    pub good: GoodView,
}

/// What a caller sends to stock a lot. The good is named by its key or by
/// its material code, or described in full.
#[derive(Clone, Debug, PartialEq)]
pub struct CreateInventoryRequest {
    pub goods_id: Option<i32>,
    pub material_code: Option<String>,
    pub goods_name: Option<String>,
    pub description: Option<Vec<String>>,
    pub price: Option<Decimal>,
    pub volumn_l: Option<Decimal>,
    pub mass_g: Option<Decimal>,
    pub mass_base: Option<i16>,
    pub volumn_base: Option<i16>,
    pub quantity: i32,
    pub expired_date: Option<Timestamp>,
}

/// What a caller sends to change lots and their goods: the fields that are
/// present replace the stored ones, the others leave them as they are.
#[derive(Clone, Debug, PartialEq)]
pub struct UpdateInventoryRequest {
    pub material_code: Option<String>,
    pub goods_name: Option<String>,
    pub description: Option<Vec<String>>,
    pub price: Option<Decimal>,
    pub volumn_l: Option<Decimal>,
    pub mass_g: Option<Decimal>,
    pub mass_base: Option<i16>,
    pub volumn_base: Option<i16>,
    pub quantity: Option<i32>,
    pub expired_date: Option<Timestamp>,
}

/// A filter on inventory: conditions on the lot, and a filter on its good.
#[derive(Clone, Debug, PartialEq)]
pub struct InventorySearchParams {
    pub item_id: Option<i32>,
    pub quantity: Option<i32>,
    pub min_quantity: Option<i32>,
    pub max_quantity: Option<i32>,
    pub expired_date: Option<Timestamp>,
    pub min_expired_date: Option<Timestamp>,
    pub max_expired_date: Option<Timestamp>,
    pub goods_params: GoodsSearchParams,
}

impl View for InventoryItemWithGoods {
    type V = InventoryItemWithGoodsView;

    open spec fn view(&self) -> InventoryItemWithGoodsView {
        InventoryItemWithGoodsView {
            item: InventoryItem {
                item_id: self.item_id,
                goods_id: self.goods_id,
                quantity: self.quantity,
                expired_date: self.expired_date,
            },
            good: GoodView {
                goods_id: self.goods_id,
                material_code: self.material_code@,
                goods_name: self.goods_name@,
                description: text_list(self.description),
                price: self.price,
                volumn_l: self.volumn_l,
                mass_g: self.mass_g,
                mass_base: self.mass_base,
                volumn_base: self.volumn_base,
            },
        }
    }
}

impl Clone for InventoryItemWithGoods {
    fn clone(&self) -> (r: Self)
        ensures
            r@ == self@,
    {
        InventoryItemWithGoods {
            item_id: self.item_id,
            goods_id: self.goods_id,
            material_code: self.material_code.clone(),
            goods_name: self.goods_name.clone(),
            description: copy_text_list(&self.description),
            price: self.price,
            volumn_l: self.volumn_l,
            mass_g: self.mass_g,
            mass_base: self.mass_base,
            volumn_base: self.volumn_base,
            quantity: self.quantity,
            expired_date: self.expired_date,
        }
    }
}

impl InventoryItemWithGoods {
    /// A lot joined to its good. The key of the good is that of the lot's
    /// reference.
    pub fn join(item: &InventoryItem, good: &Good) -> (r: Self)
        ensures
            r@.item == *item,
            r@.good == (GoodView { goods_id: item.goods_id, ..good@ }),
    {
        InventoryItemWithGoods {
            item_id: item.item_id,
            goods_id: item.goods_id,
            material_code: good.material_code.clone(),
            goods_name: good.goods_name.clone(),
            description: copy_text_list(&good.description),
            price: good.price,
            volumn_l: good.volumn_l,
            mass_g: good.mass_g,
            mass_base: good.mass_base,
            volumn_base: good.volumn_base,
            quantity: item.quantity,
            expired_date: item.expired_date,
        }
    }
}

/// The lots of a sequence as plain data.
pub open spec fn joined_views(v: Seq<InventoryItemWithGoods>) -> Seq<InventoryItemWithGoodsView> {
    v.map_values(|x: InventoryItemWithGoods| x@)
}

/// The value that stands for an optional integer.
pub open spec fn int_value(v: Option<i32>) -> ValueView {
    match v {
        Some(n) => ValueView::Int(n),
        None => ValueView::Null(SqlType::Int),
    }
}

/// The value that stands for an optional point in time.
pub open spec fn timestamp_value(v: Option<Timestamp>) -> ValueView {
    match v {
        Some(t) => ValueView::Timestamp(t),
        None => ValueView::Null(SqlType::Timestamp),
    }
}

impl InventoryItem {
    /// The lot after a patch of its own two fields: each that is present
    /// replaces the stored one. A patch cannot take an expiry date away.
    pub open spec fn patched(self, quantity: Option<i32>, expired_date: Option<Timestamp>) -> Self {
        InventoryItem {
            item_id: self.item_id,
            goods_id: self.goods_id,
            quantity: match quantity {
                Some(q) => q,
                None => self.quantity,
            },
            expired_date: match expired_date {
                Some(t) => Some(t),
                None => self.expired_date,
            },
        }
    }
}

impl CreateInventoryRequest {
    /// The draft describes a good in full: name, price, volume and mass.
    pub open spec fn describes_good(self) -> bool {
        &&& self.goods_name is Some
        &&& self.price is Some
        &&& self.volumn_l is Some
        &&& self.mass_g is Some
    }

    /// Whether the draft describes a good in full.
    pub fn has_full_description(&self) -> (r: bool)
        ensures
            r == self.describes_good(),
    {
        self.goods_name.is_some() && self.price.is_some() && self.volumn_l.is_some()
            && self.mass_g.is_some()
    }
}

impl UpdateInventoryRequest {
    /// A field of the good is present.
    pub open spec fn touches_good(self) -> bool {
        ||| self.material_code is Some
        ||| self.goods_name is Some
        ||| self.description is Some
        ||| self.price is Some
        ||| self.volumn_l is Some
        ||| self.mass_g is Some
        ||| self.mass_base is Some
        ||| self.volumn_base is Some
    }

    /// A field of the lot itself is present.
    pub open spec fn touches_item(self) -> bool {
        self.quantity is Some || self.expired_date is Some
    }

    /// No field is present: the patch would change nothing.
    pub open spec fn is_empty(self) -> bool {
        !self.touches_good() && !self.touches_item()
    }

    /// The part of the patch that speaks of the good.
    pub open spec fn good_patch(self) -> UpdateGoodRequest {
        UpdateGoodRequest {
            material_code: self.material_code,
            goods_name: self.goods_name,
            description: self.description,
            price: self.price,
            volumn_l: self.volumn_l,
            mass_g: self.mass_g,
            mass_base: self.mass_base,
            volumn_base: self.volumn_base,
        }
    }

    /// Whether a field of the good is present.
    pub fn has_good_field(&self) -> (r: bool)
        ensures
            r == self.touches_good(),
    {
        self.material_code.is_some() || self.goods_name.is_some() || self.description.is_some()
            || self.price.is_some() || self.volumn_l.is_some() || self.mass_g.is_some()
            || self.mass_base.is_some() || self.volumn_base.is_some()
    }

    /// Whether a field of the lot itself is present.
    pub fn has_item_field(&self) -> (r: bool)
        ensures
            r == self.touches_item(),
    {
        self.quantity.is_some() || self.expired_date.is_some()
    }

    /// Whether no field is present.
    pub fn has_no_field(&self) -> (r: bool)
        ensures
            r == self.is_empty(),
    {
        !self.has_good_field() && !self.has_item_field()
    }

    /// The part of the patch that speaks of the good, and the two fields of
    /// the lot.
    pub fn split(self) -> (r: (UpdateGoodRequest, Option<i32>, Option<Timestamp>))
        ensures
            r.0 == self.good_patch(),
            r.1 == self.quantity,
            r.2 == self.expired_date,
    {
        (
            UpdateGoodRequest {
                material_code: self.material_code,
                goods_name: self.goods_name,
                description: self.description,
                price: self.price,
                volumn_l: self.volumn_l,
                mass_g: self.mass_g,
                mass_base: self.mass_base,
                volumn_base: self.volumn_base,
            },
            self.quantity,
            self.expired_date,
        )
    }
}

impl InventorySearchParams {
    /// The filter asks for every row: its filter on goods does.
    pub open spec fn get_all(self) -> bool {
        self.goods_params.get_all()
    }

    /// No field is present.
    pub open spec fn is_empty(self) -> bool {
        &&& self.item_id is None
        &&& self.quantity is None
        &&& self.min_quantity is None
        &&& self.max_quantity is None
        &&& self.expired_date is None
        &&& self.min_expired_date is None
        &&& self.max_expired_date is None
        &&& self.goods_params.is_empty()
    }

    /// The conditions on the lot itself, in their fixed order: the key, the
    /// quantity and its bounds, the expiry date and its bounds.
    pub open spec fn item_predicates(self) -> Seq<Predicate> {
        Seq::<Predicate>::empty() + int_predicate(Column::ItemId, Operator::Equals, self.item_id)
            + int_predicate(Column::Quantity, Operator::Equals, self.quantity) + int_predicate(
            Column::Quantity,
            Operator::AtLeast,
            self.min_quantity,
        ) + int_predicate(Column::Quantity, Operator::AtMost, self.max_quantity)
            + timestamp_predicate(Column::ExpiredDate, Operator::Equals, self.expired_date)
            + timestamp_predicate(Column::ExpiredDate, Operator::AtLeast, self.min_expired_date)
            + timestamp_predicate(Column::ExpiredDate, Operator::AtMost, self.max_expired_date)
    }

    /// The conditions of the filter: those on the lot, then those on its
    /// good.
    pub open spec fn predicates(self) -> Seq<Predicate> {
        self.goods_params.predicates_after(self.item_predicates())
    }

    /// The text of the search statement: the plain ordered scan of the join
    /// for a filter that asks for every row, else the head, one condition
    /// for each field that is present, and the order.
    pub open spec fn sql(self) -> Seq<char> {
        if self.get_all() {
            INVENTORY_SCAN@
        } else {
            search_sql(INVENTORY_SEARCH_HEAD@, self.predicates(), true, INVENTORY_ORDER@)
        }
    }

    /// The values of the search statement, in the order of its conditions.
    pub open spec fn binds(self) -> Seq<ValueView> {
        if self.get_all() {
            Seq::empty()
        } else {
            binds_of(self.predicates())
        }
    }

    /// A filter with no field.
    pub fn new() -> (p: Self)
        ensures
            p.is_empty(),
            !p.get_all(),
    {
        InventorySearchParams {
            item_id: None,
            quantity: None,
            min_quantity: None,
            max_quantity: None,
            expired_date: None,
            min_expired_date: None,
            max_expired_date: None,
            goods_params: GoodsSearchParams::new(),
        }
    }

    /// Whether the filter asks for every row.
    pub fn is_get_all(&self) -> (r: bool)
        ensures
            r == self.get_all(),
    {
        self.goods_params.is_get_all()
    }

    /// Whether no field is present.
    pub fn has_no_field(&self) -> (r: bool)
        ensures
            r == self.is_empty(),
    {
        self.item_id.is_none() && self.quantity.is_none() && self.min_quantity.is_none()
            && self.max_quantity.is_none() && self.expired_date.is_none()
            && self.min_expired_date.is_none() && self.max_expired_date.is_none()
            && self.goods_params.has_no_field()
    }

    /// Compiles the filter: one condition and one value for each field that
    /// is present, at the same index, the lot's conditions before those of
    /// its good.
    pub fn compile(&self) -> (c: CompiledFilter)
        ensures
            c.holds(self.predicates(), true),
            c.conditions@.len() == c.binds@.len(),
    {
        let mut c = CompiledFilter::new();
        let ghost p0 = Seq::<Predicate>::empty();
        let ghost p1 = p0 + int_predicate(Column::ItemId, Operator::Equals, self.item_id);
        add_int(&mut c, Ghost(p0), Column::ItemId, true, Operator::Equals, self.item_id);
        let ghost p2 = p1 + int_predicate(Column::Quantity, Operator::Equals, self.quantity);
        add_int(&mut c, Ghost(p1), Column::Quantity, true, Operator::Equals, self.quantity);
        let ghost p3 = p2 + int_predicate(Column::Quantity, Operator::AtLeast, self.min_quantity);
        add_int(&mut c, Ghost(p2), Column::Quantity, true, Operator::AtLeast, self.min_quantity);
        let ghost p4 = p3 + int_predicate(Column::Quantity, Operator::AtMost, self.max_quantity);
        add_int(&mut c, Ghost(p3), Column::Quantity, true, Operator::AtMost, self.max_quantity);
        let ghost p5 = p4 + timestamp_predicate(
            Column::ExpiredDate,
            Operator::Equals,
            self.expired_date,
        );
        add_timestamp(
            &mut c,
            Ghost(p4),
            Column::ExpiredDate,
            true,
            Operator::Equals,
            self.expired_date,
        );
        let ghost p6 = p5 + timestamp_predicate(
            Column::ExpiredDate,
            Operator::AtLeast,
            self.min_expired_date,
        );
        add_timestamp(
            &mut c,
            Ghost(p5),
            Column::ExpiredDate,
            true,
            Operator::AtLeast,
            self.min_expired_date,
        );
        let ghost p7 = p6 + timestamp_predicate(
            Column::ExpiredDate,
            Operator::AtMost,
            self.max_expired_date,
        );
        add_timestamp(
            &mut c,
            Ghost(p6),
            Column::ExpiredDate,
            true,
            Operator::AtMost,
            self.max_expired_date,
        );
        self.goods_params.compile_into(&mut c, Ghost(p7), true);
        assert(texts(c.conditions@).len() == c.conditions@.len());
        assert(values(c.binds@).len() == c.binds@.len());
        c
    }

    /// The statement that searches under this filter.
    pub fn statement(&self) -> (s: Statement)
        ensures
            s.sql@ == self.sql(),
            values(s.binds@) == self.binds(),
    {
        if self.is_get_all() {
            let s = Statement { sql: INVENTORY_SCAN.to_owned(), binds: Vec::new() };
            assert(values(s.binds@) =~= self.binds());
            s
        } else {
            self.compile().into_statement(INVENTORY_SEARCH_HEAD, INVENTORY_ORDER)
        }
    }
}

impl InventorySearchParams {
    /// The two filters have the same fields, and both or neither ask for
    /// every row.
    pub open spec fn same_fields(self, other: InventorySearchParams) -> bool {
        &&& self.item_id is Some == other.item_id is Some
        &&& self.quantity is Some == other.quantity is Some
        &&& self.min_quantity is Some == other.min_quantity is Some
        &&& self.max_quantity is Some == other.max_quantity is Some
        &&& self.expired_date is Some == other.expired_date is Some
        &&& self.min_expired_date is Some == other.min_expired_date is Some
        &&& self.max_expired_date is Some == other.max_expired_date is Some
        &&& self.goods_params.same_fields(other.goods_params)
    }
}

/// No value reaches the text of a statement on inventory: two filters with
/// the same fields compile to the same text, whatever the fields hold.
pub proof fn law_inventory_statement_text_ignores_values(
    p: InventorySearchParams,
    q: InventorySearchParams,
)
    requires
        p.same_fields(q),
    ensures
        p.sql() == q.sql(),
{
    let a0 = Seq::<Predicate>::empty();
    let x1 = int_predicate(Column::ItemId, Operator::Equals, p.item_id);
    let y1 = int_predicate(Column::ItemId, Operator::Equals, q.item_id);
    lemma_shapes_with(a0, a0, x1, y1);
    let a1 = a0 + x1;
    let b1 = a0 + y1;
    let x2 = int_predicate(Column::Quantity, Operator::Equals, p.quantity);
    let y2 = int_predicate(Column::Quantity, Operator::Equals, q.quantity);
    lemma_shapes_with(a1, b1, x2, y2);
    let a2 = a1 + x2;
    let b2 = b1 + y2;
    let x3 = int_predicate(Column::Quantity, Operator::AtLeast, p.min_quantity);
    let y3 = int_predicate(Column::Quantity, Operator::AtLeast, q.min_quantity);
    lemma_shapes_with(a2, b2, x3, y3);
    let a3 = a2 + x3;
    let b3 = b2 + y3;
    let x4 = int_predicate(Column::Quantity, Operator::AtMost, p.max_quantity);
    let y4 = int_predicate(Column::Quantity, Operator::AtMost, q.max_quantity);
    lemma_shapes_with(a3, b3, x4, y4);
    let a4 = a3 + x4;
    let b4 = b3 + y4;
    let x5 = timestamp_predicate(Column::ExpiredDate, Operator::Equals, p.expired_date);
    let y5 = timestamp_predicate(Column::ExpiredDate, Operator::Equals, q.expired_date);
    lemma_shapes_with(a4, b4, x5, y5);
    let a5 = a4 + x5;
    let b5 = b4 + y5;
    let x6 = timestamp_predicate(Column::ExpiredDate, Operator::AtLeast, p.min_expired_date);
    let y6 = timestamp_predicate(Column::ExpiredDate, Operator::AtLeast, q.min_expired_date);
    lemma_shapes_with(a5, b5, x6, y6);
    let a6 = a5 + x6;
    let b6 = b5 + y6;
    let x7 = timestamp_predicate(Column::ExpiredDate, Operator::AtMost, p.max_expired_date);
    let y7 = timestamp_predicate(Column::ExpiredDate, Operator::AtMost, q.max_expired_date);
    lemma_shapes_with(a6, b6, x7, y7);
    let a7 = a6 + x7;
    let b7 = b6 + y7;
    lemma_goods_shapes(p.goods_params, q.goods_params, a7, b7);
    lemma_text_depends_on_shape(p.predicates(), q.predicates(), true);
}

/// The values of the statement that finds the lot of a good with an expiry
/// date, or the one without.
pub open spec fn item_key_binds(goods_id: i32, expired_date: Option<Timestamp>) -> Seq<ValueView> {
    match expired_date {
        Some(t) => seq![ValueView::Int(goods_id), ValueView::Timestamp(t)],
        None => seq![ValueView::Int(goods_id)],
    }
}

/// The text of the statement that finds the lot of a good with an expiry
/// date, or the one without. A missing date is a key of its own: it is
/// asked for with `IS NULL`, never with `=`.
pub open spec fn item_key_sql(expired_date: Option<Timestamp>) -> Seq<char> {
    match expired_date {
        Some(_) => ITEM_BY_DATED_KEY@,
        None => ITEM_BY_UNDATED_KEY@,
    }
}

/// The statement that finds the lot of a good with a given expiry date, or
/// the lot without one.
pub fn item_by_key_statement(goods_id: i32, expired_date: Option<Timestamp>) -> (s: Statement)
    ensures
        s.sql@ == item_key_sql(expired_date),
        values(s.binds@) == item_key_binds(goods_id, expired_date),
{
    let mut binds: Vec<Value> = Vec::new();
    binds.push(Value::Int(goods_id));
    match expired_date {
        Some(t) => {
            binds.push(Value::Timestamp(t));
            assert(values(binds@) =~= item_key_binds(goods_id, expired_date));
            Statement { sql: ITEM_BY_DATED_KEY.to_owned(), binds }
        },
        None => {
            assert(values(binds@) =~= item_key_binds(goods_id, expired_date));
            Statement { sql: ITEM_BY_UNDATED_KEY.to_owned(), binds }
        },
    }
}

/// The statement that stocks a new lot.
pub fn insert_item_statement(goods_id: i32, quantity: i32, expired_date: Option<Timestamp>) -> (s:
    Statement)
    ensures
        s.sql@ == ITEM_INSERT@,
        values(s.binds@) == seq![
            ValueView::Int(goods_id),
            ValueView::Int(quantity),
            timestamp_value(expired_date),
        ],
{
    let mut binds: Vec<Value> = Vec::new();
    binds.push(Value::Int(goods_id));
    binds.push(Value::Int(quantity));
    binds.push(bind_timestamp(expired_date));
    assert(values(binds@) =~= seq![
        ValueView::Int(goods_id),
        ValueView::Int(quantity),
        timestamp_value(expired_date),
    ]);
    Statement { sql: ITEM_INSERT.to_owned(), binds }
}

/// The values of the statement that patches the lot `item_id`; an absent
/// field is a null.
pub open spec fn update_item_binds(
    item_id: i32,
    quantity: Option<i32>,
    expired_date: Option<Timestamp>,
) -> Seq<ValueView> {
    seq![ValueView::Int(item_id), int_value(quantity), timestamp_value(expired_date)]
}

/// The statement that patches the two fields of a lot.
pub fn update_item_statement(
    item_id: i32,
    quantity: Option<i32>,
    expired_date: Option<Timestamp>,
) -> (s: Statement)
    ensures
        s.sql@ == ITEM_UPDATE@,
        values(s.binds@) == update_item_binds(item_id, quantity, expired_date),
{
    let mut binds: Vec<Value> = Vec::new();
    binds.push(Value::Int(item_id));
    binds.push(bind_int(quantity));
    binds.push(bind_timestamp(expired_date));
    assert(values(binds@) =~= update_item_binds(item_id, quantity, expired_date));
    Statement { sql: ITEM_UPDATE.to_owned(), binds }
}

/// The statement that finds a lot and its good by the lot's key.
pub fn inventory_by_item_id_statement(item_id: i32) -> (s: Statement)
    ensures
        s.sql@ == INVENTORY_BY_ITEM_ID@,
        values(s.binds@) == seq![ValueView::Int(item_id)],
{
    let mut binds: Vec<Value> = Vec::new();
    binds.push(Value::Int(item_id));
    assert(values(binds@) =~= seq![ValueView::Int(item_id)]);
    Statement { sql: INVENTORY_BY_ITEM_ID.to_owned(), binds }
}

/// The statement that deletes the lot with a key.
pub fn delete_item_statement(item_id: i32) -> (s: Statement)
    ensures
        s.sql@ == ITEM_DELETE@,
        values(s.binds@) == seq![ValueView::Int(item_id)],
{
    let mut binds: Vec<Value> = Vec::new();
    binds.push(Value::Int(item_id));
    assert(values(binds@) =~= seq![ValueView::Int(item_id)]);
    Statement { sql: ITEM_DELETE.to_owned(), binds }
}

/// The value that stands for an optional integer.
pub fn bind_int(v: Option<i32>) -> (r: Value)
    ensures
        r@ == int_value(v),
{
    match v {
        Some(n) => Value::Int(n),
        None => Value::Null(SqlType::Int),
    }
}

/// The value that stands for an optional point in time.
pub fn bind_timestamp(v: Option<Timestamp>) -> (r: Value)
    ensures
        r@ == timestamp_value(v),
{
    match v {
        Some(t) => Value::Timestamp(t),
        None => Value::Null(SqlType::Timestamp),
    }
}

} // verus!
