//! Goods: the catalogue rows, what callers send to create, change and find
//! them, and the statements that do so.

use crate::decimal::Decimal;
use crate::sql::{
    add_decimal, add_int, add_pattern, binds_of, decimal_predicate, int_predicate,
    lemma_shapes_with, lemma_text_depends_on_shape, pattern_predicate, search_sql, shapes, values,
    Column, CompiledFilter, Operator, Predicate, SqlType, Statement, Value, ValueView,
};
use crate::text::{copy_text_list, copy_texts, text_eq, text_list, texts};
use vstd::prelude::*;
use vstd::string::*;

verus! {

/// The ordered scan of all goods.
pub const GOODS_SCAN: &'static str =
    "SELECT goods_id, material_code, goods_name, description, price, volumn_l, mass_g, mass_base, volumn_base FROM goods ORDER BY goods_id ASC";

/// The head of a filtered search on goods.
pub const GOODS_SEARCH_HEAD: &'static str =
    "SELECT goods_id, material_code, goods_name, description, price, volumn_l, mass_g, mass_base, volumn_base FROM goods WHERE 1=1";

/// The order of every search on goods: by key, ascending.
pub const GOODS_ORDER: &'static str = " ORDER BY goods_id ASC";

/// The good with a given key.
pub const GOODS_BY_ID: &'static str =
    "SELECT goods_id, material_code, goods_name, description, price, volumn_l, mass_g, mass_base, volumn_base FROM goods WHERE goods_id = $1";

/// The good with a given material code.
pub const GOODS_BY_MATERIAL_CODE: &'static str =
    "SELECT goods_id, material_code, goods_name, description, price, volumn_l, mass_g, mass_base, volumn_base FROM goods WHERE material_code = $1";

/// A new good; the store assigns the key and returns the row.
pub const GOODS_INSERT: &'static str =
    "INSERT INTO goods (material_code, goods_name, description, price, volumn_l, mass_g, mass_base, volumn_base) VALUES ($1, $2, $3, $4, $5, $6, $7, $8) RETURNING goods_id, material_code, goods_name, description, price, volumn_l, mass_g, mass_base, volumn_base";

/// A patch on one good: a column changes only where its value is not null.
pub const GOODS_UPDATE: &'static str =
    "UPDATE goods SET material_code = COALESCE($2, material_code), goods_name = COALESCE($3, goods_name), description = COALESCE($4, description), price = COALESCE($5, price), volumn_l = COALESCE($6, volumn_l), mass_g = COALESCE($7, mass_g), mass_base = COALESCE($8, mass_base), volumn_base = COALESCE($9, volumn_base) WHERE goods_id = $1 RETURNING goods_id, material_code, goods_name, description, price, volumn_l, mass_g, mass_base, volumn_base";

/// The end of one good.
pub const GOODS_DELETE: &'static str = "DELETE FROM goods WHERE goods_id = $1";

/// A catalogue entry.
#[derive(Debug, PartialEq)]
pub struct Good {
    pub goods_id: i32,
    pub material_code: String,
    pub goods_name: String,
    pub description: Option<Vec<String>>,
    pub price: Decimal,
    pub volumn_l: Decimal,
    pub mass_g: Decimal,
    pub mass_base: i16,
    pub volumn_base: i16,
}

/// A catalogue entry as plain data.
pub struct GoodView {
    pub goods_id: i32,
    pub material_code: Seq<char>,
    pub goods_name: Seq<char>,
    pub description: Option<Seq<Seq<char>>>,
    pub price: Decimal,
    pub volumn_l: Decimal,
    pub mass_g: Decimal,
    pub mass_base: i16,
    pub volumn_base: i16,
}

/// What a caller sends to create a good.
#[derive(Clone, Debug, PartialEq)]
pub struct CreateGoodRequest {
    pub material_code: String,
    pub goods_name: String,
    pub description: Option<Vec<String>>,
    pub price: Decimal,
    pub volumn_l: Decimal,
    pub mass_g: Decimal,
    pub mass_base: Option<i16>,
    pub volumn_base: Option<i16>,
}

/// What a caller sends to change goods: the fields that are present replace
/// the stored ones, the others leave them as they are.
#[derive(Clone, Debug, PartialEq)]
pub struct UpdateGoodRequest {
    pub material_code: Option<String>,
    pub goods_name: Option<String>,
    pub description: Option<Vec<String>>,
    pub price: Option<Decimal>,
    pub volumn_l: Option<Decimal>,
    pub mass_g: Option<Decimal>,
    pub mass_base: Option<i16>,
    pub volumn_base: Option<i16>,
}

/// A filter on goods. Every field that is present is one condition, and all
/// conditions must hold.
#[derive(Clone, Debug, PartialEq)]
pub struct GoodsSearchParams {
    pub goods_id: Option<i32>,
    pub material_code: Option<String>,
    pub goods_name: Option<String>,
    pub price: Option<Decimal>,
    pub volumn_l: Option<Decimal>,
    pub mass_g: Option<Decimal>,
    pub min_volumn_l: Option<Decimal>,
    pub max_volumn_l: Option<Decimal>,
    pub min_mass_g: Option<Decimal>,
    pub max_mass_g: Option<Decimal>,
    pub min_price: Option<Decimal>,
    pub max_price: Option<Decimal>,
}

impl View for Good {
    type V = GoodView;

    open spec fn view(&self) -> GoodView {
        GoodView {
            goods_id: self.goods_id,
            material_code: self.material_code@,
            goods_name: self.goods_name@,
            description: text_list(self.description),
            price: self.price,
            volumn_l: self.volumn_l,
            mass_g: self.mass_g,
            mass_base: self.mass_base,
            volumn_base: self.volumn_base,
        }
    }
}

impl Clone for Good {
    fn clone(&self) -> (r: Self)
        ensures
            r@ == self@,
    {
        Good {
            goods_id: self.goods_id,
            material_code: self.material_code.clone(),
            goods_name: self.goods_name.clone(),
            description: copy_text_list(&self.description),
            price: self.price,
            volumn_l: self.volumn_l,
            mass_g: self.mass_g,
            mass_base: self.mass_base,
            volumn_base: self.volumn_base,
        }
    }
}

/// The goods of a sequence as plain data.
pub open spec fn good_views(v: Seq<Good>) -> Seq<GoodView> {
    v.map_values(|g: Good| g@)
}

/// A small integer, or zero where there is none.
pub open spec fn or_zero(v: Option<i16>) -> i16 {
    match v {
        Some(x) => x,
        None => 0,
    }
}

/// The value that stands for an optional text.
pub open spec fn text_value(v: Option<String>) -> ValueView {
    match v {
        Some(s) => ValueView::Text(s@),
        None => ValueView::Null(SqlType::Text),
    }
}

/// The value that stands for an optional list of texts.
pub open spec fn text_list_value(v: Option<Vec<String>>) -> ValueView {
    match v {
        Some(l) => ValueView::TextList(texts(l@)),
        None => ValueView::Null(SqlType::TextList),
    }
}

/// The value that stands for an optional decimal.
pub open spec fn decimal_value(v: Option<Decimal>) -> ValueView {
    match v {
        Some(d) => ValueView::Decimal(d),
        None => ValueView::Null(SqlType::Decimal),
    }
}

/// The value that stands for an optional small integer.
pub open spec fn small_int_value(v: Option<i16>) -> ValueView {
    match v {
        Some(n) => ValueView::SmallInt(n),
        None => ValueView::Null(SqlType::SmallInt),
    }
}

impl CreateGoodRequest {
    /// The row that the store makes of this draft under the key `goods_id`:
    /// the unit codes are zero where the draft has none.
    pub open spec fn row(self, goods_id: i32) -> GoodView {
        GoodView {
            goods_id,
            material_code: self.material_code@,
            goods_name: self.goods_name@,
            description: text_list(self.description),
            price: self.price,
            volumn_l: self.volumn_l,
            mass_g: self.mass_g,
            mass_base: or_zero(self.mass_base),
            volumn_base: or_zero(self.volumn_base),
        }
    }

    /// The values of the insert statement, in the order of its placeholders.
    pub open spec fn binds(self) -> Seq<ValueView> {
        seq![
            ValueView::Text(self.material_code@),
            ValueView::Text(self.goods_name@),
            text_list_value(self.description),
            ValueView::Decimal(self.price),
            ValueView::Decimal(self.volumn_l),
            ValueView::Decimal(self.mass_g),
            ValueView::SmallInt(or_zero(self.mass_base)),
            ValueView::SmallInt(or_zero(self.volumn_base)),
        ]
    }

    /// The statement that inserts this draft.
    pub fn statement(&self) -> (s: Statement)
        ensures
            s.sql@ == GOODS_INSERT@,
            values(s.binds@) == self.binds(),
    {
        let mut binds: Vec<Value> = Vec::new();
        binds.push(Value::Text(self.material_code.clone()));
        binds.push(Value::Text(self.goods_name.clone()));
        binds.push(bind_text_list(&self.description));
        binds.push(Value::Decimal(self.price));
        binds.push(Value::Decimal(self.volumn_l));
        binds.push(Value::Decimal(self.mass_g));
        binds.push(Value::SmallInt(zero_if_none(self.mass_base)));
        binds.push(Value::SmallInt(zero_if_none(self.volumn_base)));
        assert(values(binds@) =~= self.binds());
        Statement { sql: GOODS_INSERT.to_owned(), binds }
    }
}

impl UpdateGoodRequest {
    /// No field is present: the patch would change nothing.
    pub open spec fn is_empty(self) -> bool {
        &&& self.material_code is None
        &&& self.goods_name is None
        &&& self.description is None
        &&& self.price is None
        &&& self.volumn_l is None
        &&& self.mass_g is None
        &&& self.mass_base is None
        &&& self.volumn_base is None
    }

    /// The row after the patch: each field that is present replaces the
    /// stored one, each that is absent leaves it. The key never changes.
    pub open spec fn apply(self, row: GoodView) -> GoodView {
        GoodView {
            goods_id: row.goods_id,
            material_code: match self.material_code {
                Some(s) => s@,
                None => row.material_code,
            },
            goods_name: match self.goods_name {
                Some(s) => s@,
                None => row.goods_name,
            },
            description: match self.description {
                Some(l) => Some(texts(l@)),
                None => row.description,
            },
            price: match self.price {
                Some(d) => d,
                None => row.price,
            },
            volumn_l: match self.volumn_l {
                Some(d) => d,
                None => row.volumn_l,
            },
            mass_g: match self.mass_g {
                Some(d) => d,
                None => row.mass_g,
            },
            mass_base: match self.mass_base {
                Some(n) => n,
                None => row.mass_base,
            },
            volumn_base: match self.volumn_base {
                Some(n) => n,
                None => row.volumn_base,
            },
        }
    }

    /// The values of the update statement for the good `goods_id`, in the
    /// order of its placeholders; an absent field is a null.
    pub open spec fn binds(self, goods_id: i32) -> Seq<ValueView> {
        seq![
            ValueView::Int(goods_id),
            text_value(self.material_code),
            text_value(self.goods_name),
            text_list_value(self.description),
            decimal_value(self.price),
            decimal_value(self.volumn_l),
            decimal_value(self.mass_g),
            small_int_value(self.mass_base),
            small_int_value(self.volumn_base),
        ]
    }

    /// Whether no field is present.
    pub fn has_no_field(&self) -> (r: bool)
        ensures
            r == self.is_empty(),
    {
        self.material_code.is_none() && self.goods_name.is_none() && self.description.is_none()
            && self.price.is_none() && self.volumn_l.is_none() && self.mass_g.is_none()
            && self.mass_base.is_none() && self.volumn_base.is_none()
    }

    /// The statement that applies this patch to the good `goods_id`.
    pub fn statement(&self, goods_id: i32) -> (s: Statement)
        ensures
            s.sql@ == GOODS_UPDATE@,
            values(s.binds@) == self.binds(goods_id),
    {
        let mut binds: Vec<Value> = Vec::new();
        binds.push(Value::Int(goods_id));
        binds.push(bind_text(&self.material_code));
        binds.push(bind_text(&self.goods_name));
        binds.push(bind_text_list(&self.description));
        binds.push(bind_decimal(self.price));
        binds.push(bind_decimal(self.volumn_l));
        binds.push(bind_decimal(self.mass_g));
        binds.push(bind_small_int(self.mass_base));
        binds.push(bind_small_int(self.volumn_base));
        assert(values(binds@) =~= self.binds(goods_id));
        Statement { sql: GOODS_UPDATE.to_owned(), binds }
    }
}

impl GoodsSearchParams {
    /// The filter asks for every row: one of the two text fields is the lone
    /// wildcard `*`.
    pub open spec fn get_all(self) -> bool {
        ||| (self.goods_name is Some && self.goods_name->0@ == "*"@)
        ||| (self.material_code is Some && self.material_code->0@ == "*"@)
    }

    /// No field is present.
    pub open spec fn is_empty(self) -> bool {
        &&& self.goods_id is None
        &&& self.material_code is None
        &&& self.goods_name is None
        &&& self.price is None
        &&& self.volumn_l is None
        &&& self.mass_g is None
        &&& self.min_volumn_l is None
        &&& self.max_volumn_l is None
        &&& self.min_mass_g is None
        &&& self.max_mass_g is None
        &&& self.min_price is None
        &&& self.max_price is None
    }

    /// The conditions of the filter, in their fixed order: the key, the two
    /// text fields, the three exact amounts, then the bounds on volume, mass
    /// and price, each lower bound before its upper bound.
    pub open spec fn predicates(self) -> Seq<Predicate> {
        self.predicates_after(Seq::empty())
    }

    /// The conditions of the filter, after those of `before`.
    pub open spec fn predicates_after(self, before: Seq<Predicate>) -> Seq<Predicate> {
        before + int_predicate(Column::GoodsId, Operator::Equals, self.goods_id) + pattern_predicate(
            Column::MaterialCode,
            self.material_code,
        ) + pattern_predicate(Column::GoodsName, self.goods_name) + decimal_predicate(
            Column::Price,
            Operator::Equals,
            self.price,
        ) + decimal_predicate(Column::VolumnL, Operator::Equals, self.volumn_l)
            + decimal_predicate(Column::MassG, Operator::Equals, self.mass_g) + decimal_predicate(
            Column::VolumnL,
            Operator::AtLeast,
            self.min_volumn_l,
        ) + decimal_predicate(Column::VolumnL, Operator::AtMost, self.max_volumn_l)
            + decimal_predicate(Column::MassG, Operator::AtLeast, self.min_mass_g)
            + decimal_predicate(Column::MassG, Operator::AtMost, self.max_mass_g)
            + decimal_predicate(Column::Price, Operator::AtLeast, self.min_price)
            + decimal_predicate(Column::Price, Operator::AtMost, self.max_price)
    }

    /// The text of the search statement: the plain ordered scan for a filter
    /// that asks for every row, else the head, one condition for each field
    /// that is present, and the order.
    pub open spec fn sql(self) -> Seq<char> {
        if self.get_all() {
            GOODS_SCAN@
        } else {
            search_sql(GOODS_SEARCH_HEAD@, self.predicates(), false, GOODS_ORDER@)
        }
    }

    /// The values of the search statement, in the order of its conditions.
    pub open spec fn binds(self) -> Seq<ValueView> {
        if self.get_all() {
            Seq::empty()
        } else {
            binds_of(self.predicates())
        }
    }

    /// A filter with no field.
    pub fn new() -> (p: Self)
        ensures
            p.is_empty(),
            !p.get_all(),
    {
        GoodsSearchParams {
            goods_id: None,
            material_code: None,
            goods_name: None,
            price: None,
            volumn_l: None,
            mass_g: None,
            min_volumn_l: None,
            max_volumn_l: None,
            min_mass_g: None,
            max_mass_g: None,
            min_price: None,
            max_price: None,
        }
    }

    /// Whether the filter asks for every row.
    pub fn is_get_all(&self) -> (r: bool)
        ensures
            r == self.get_all(),
    {
        let by_name = match &self.goods_name {
            Some(s) => text_eq(s.as_str(), "*"),
            None => false,
        };
        let by_code = match &self.material_code {
            Some(s) => text_eq(s.as_str(), "*"),
            None => false,
        };
        by_name || by_code
    }

    /// Whether no field is present.
    pub fn has_no_field(&self) -> (r: bool)
        ensures
            r == self.is_empty(),
    {
        self.goods_id.is_none() && self.material_code.is_none() && self.goods_name.is_none()
            && self.price.is_none() && self.volumn_l.is_none() && self.mass_g.is_none()
            && self.min_volumn_l.is_none() && self.max_volumn_l.is_none()
            && self.min_mass_g.is_none() && self.max_mass_g.is_none() && self.min_price.is_none()
            && self.max_price.is_none()
    }

    /// Adds the conditions of this filter to a compiled filter, after those
    /// that it holds already.
    pub(crate) fn compile_into(
        &self,
        c: &mut CompiledFilter,
        Ghost(before): Ghost<Seq<Predicate>>,
        joined: bool,
    )
        requires
            old(c).holds(before, joined),
            old(c).conditions@.len() < 100,
        ensures
            final(c).holds(self.predicates_after(before), joined),
    {
        let ghost p1 = before + int_predicate(Column::GoodsId, Operator::Equals, self.goods_id);
        add_int(c, Ghost(before), Column::GoodsId, joined, Operator::Equals, self.goods_id);
        let ghost p2 = p1 + pattern_predicate(Column::MaterialCode, self.material_code);
        add_pattern(c, Ghost(p1), Column::MaterialCode, joined, &self.material_code);
        let ghost p3 = p2 + pattern_predicate(Column::GoodsName, self.goods_name);
        add_pattern(c, Ghost(p2), Column::GoodsName, joined, &self.goods_name);
        let ghost p4 = p3 + decimal_predicate(Column::Price, Operator::Equals, self.price);
        add_decimal(c, Ghost(p3), Column::Price, joined, Operator::Equals, self.price);
        let ghost p5 = p4 + decimal_predicate(Column::VolumnL, Operator::Equals, self.volumn_l);
        add_decimal(c, Ghost(p4), Column::VolumnL, joined, Operator::Equals, self.volumn_l);
        let ghost p6 = p5 + decimal_predicate(Column::MassG, Operator::Equals, self.mass_g);
        add_decimal(c, Ghost(p5), Column::MassG, joined, Operator::Equals, self.mass_g);
        let ghost p7 = p6 + decimal_predicate(
            Column::VolumnL,
            Operator::AtLeast,
            self.min_volumn_l,
        );
        add_decimal(c, Ghost(p6), Column::VolumnL, joined, Operator::AtLeast, self.min_volumn_l);
        let ghost p8 = p7 + decimal_predicate(Column::VolumnL, Operator::AtMost, self.max_volumn_l);
        add_decimal(c, Ghost(p7), Column::VolumnL, joined, Operator::AtMost, self.max_volumn_l);
        let ghost p9 = p8 + decimal_predicate(Column::MassG, Operator::AtLeast, self.min_mass_g);
        add_decimal(c, Ghost(p8), Column::MassG, joined, Operator::AtLeast, self.min_mass_g);
        let ghost p10 = p9 + decimal_predicate(Column::MassG, Operator::AtMost, self.max_mass_g);
        add_decimal(c, Ghost(p9), Column::MassG, joined, Operator::AtMost, self.max_mass_g);
        let ghost p11 = p10 + decimal_predicate(Column::Price, Operator::AtLeast, self.min_price);
        add_decimal(c, Ghost(p10), Column::Price, joined, Operator::AtLeast, self.min_price);
        let ghost p12 = p11 + decimal_predicate(Column::Price, Operator::AtMost, self.max_price);
        add_decimal(c, Ghost(p11), Column::Price, joined, Operator::AtMost, self.max_price);
    }

    /// Compiles the filter: one condition and one value for each field that
    /// is present, at the same index, in the fixed order of the fields.
    pub fn compile(&self) -> (c: CompiledFilter)
        ensures
            c.holds(self.predicates(), false),
            c.conditions@.len() == c.binds@.len(),
    {
        let mut c = CompiledFilter::new();
        self.compile_into(&mut c, Ghost(Seq::empty()), false);
        assert(texts(c.conditions@).len() == c.conditions@.len());
        assert(values(c.binds@).len() == c.binds@.len());
        c
    }

    /// The statement that searches under this filter.
    pub fn statement(&self) -> (s: Statement)
        ensures
            s.sql@ == self.sql(),
            values(s.binds@) == self.binds(),
    {
        if self.is_get_all() {
            let s = Statement { sql: GOODS_SCAN.to_owned(), binds: Vec::new() };
            assert(values(s.binds@) =~= self.binds());
            s
        } else {
            self.compile().into_statement(GOODS_SEARCH_HEAD, GOODS_ORDER)
        }
    }
}

impl GoodsSearchParams {
    /// The two filters have the same fields, and both or neither ask for
    /// every row.
    pub open spec fn same_fields(self, other: GoodsSearchParams) -> bool {
        &&& self.get_all() == other.get_all()
        &&& self.goods_id is Some == other.goods_id is Some
        &&& self.material_code is Some == other.material_code is Some
        &&& self.goods_name is Some == other.goods_name is Some
        &&& self.price is Some == other.price is Some
        &&& self.volumn_l is Some == other.volumn_l is Some
        &&& self.mass_g is Some == other.mass_g is Some
        &&& self.min_volumn_l is Some == other.min_volumn_l is Some
        &&& self.max_volumn_l is Some == other.max_volumn_l is Some
        &&& self.min_mass_g is Some == other.min_mass_g is Some
        &&& self.max_mass_g is Some == other.max_mass_g is Some
        &&& self.min_price is Some == other.min_price is Some
        &&& self.max_price is Some == other.max_price is Some
    }
}

/// The shape of the conditions of a filter depends on which fields it has,
/// not on what they hold.
pub proof fn lemma_goods_shapes(
    p: GoodsSearchParams,
    q: GoodsSearchParams,
    before: Seq<Predicate>,
    other: Seq<Predicate>,
)
    requires
        p.same_fields(q),
        shapes(before) == shapes(other),
    ensures
        shapes(p.predicates_after(before)) == shapes(q.predicates_after(other)),
{
    let x1 = int_predicate(Column::GoodsId, Operator::Equals, p.goods_id);
    let y1 = int_predicate(Column::GoodsId, Operator::Equals, q.goods_id);
    lemma_shapes_with(before, other, x1, y1);
    let a1 = before + x1;
    let b1 = other + y1;
    let x2 = pattern_predicate(Column::MaterialCode, p.material_code);
    let y2 = pattern_predicate(Column::MaterialCode, q.material_code);
    lemma_shapes_with(a1, b1, x2, y2);
    let a2 = a1 + x2;
    let b2 = b1 + y2;
    let x3 = pattern_predicate(Column::GoodsName, p.goods_name);
    let y3 = pattern_predicate(Column::GoodsName, q.goods_name);
    lemma_shapes_with(a2, b2, x3, y3);
    let a3 = a2 + x3;
    let b3 = b2 + y3;
    let x4 = decimal_predicate(Column::Price, Operator::Equals, p.price);
    let y4 = decimal_predicate(Column::Price, Operator::Equals, q.price);
    lemma_shapes_with(a3, b3, x4, y4);
    let a4 = a3 + x4;
    let b4 = b3 + y4;
    let x5 = decimal_predicate(Column::VolumnL, Operator::Equals, p.volumn_l);
    let y5 = decimal_predicate(Column::VolumnL, Operator::Equals, q.volumn_l);
    lemma_shapes_with(a4, b4, x5, y5);
    let a5 = a4 + x5;
    let b5 = b4 + y5;
    let x6 = decimal_predicate(Column::MassG, Operator::Equals, p.mass_g);
    let y6 = decimal_predicate(Column::MassG, Operator::Equals, q.mass_g);
    lemma_shapes_with(a5, b5, x6, y6);
    let a6 = a5 + x6;
    let b6 = b5 + y6;
    let x7 = decimal_predicate(Column::VolumnL, Operator::AtLeast, p.min_volumn_l);
    let y7 = decimal_predicate(Column::VolumnL, Operator::AtLeast, q.min_volumn_l);
    lemma_shapes_with(a6, b6, x7, y7);
    let a7 = a6 + x7;
    let b7 = b6 + y7;
    let x8 = decimal_predicate(Column::VolumnL, Operator::AtMost, p.max_volumn_l);
    let y8 = decimal_predicate(Column::VolumnL, Operator::AtMost, q.max_volumn_l);
    lemma_shapes_with(a7, b7, x8, y8);
    let a8 = a7 + x8;
    let b8 = b7 + y8;
    let x9 = decimal_predicate(Column::MassG, Operator::AtLeast, p.min_mass_g);
    let y9 = decimal_predicate(Column::MassG, Operator::AtLeast, q.min_mass_g);
    lemma_shapes_with(a8, b8, x9, y9);
    let a9 = a8 + x9;
    let b9 = b8 + y9;
    let x10 = decimal_predicate(Column::MassG, Operator::AtMost, p.max_mass_g);
    let y10 = decimal_predicate(Column::MassG, Operator::AtMost, q.max_mass_g);
    lemma_shapes_with(a9, b9, x10, y10);
    let a10 = a9 + x10;
    let b10 = b9 + y10;
    let x11 = decimal_predicate(Column::Price, Operator::AtLeast, p.min_price);
    let y11 = decimal_predicate(Column::Price, Operator::AtLeast, q.min_price);
    lemma_shapes_with(a10, b10, x11, y11);
    let a11 = a10 + x11;
    let b11 = b10 + y11;
    let x12 = decimal_predicate(Column::Price, Operator::AtMost, p.max_price);
    let y12 = decimal_predicate(Column::Price, Operator::AtMost, q.max_price);
    lemma_shapes_with(a11, b11, x12, y12);
    let a12 = a11 + x12;
    let b12 = b11 + y12;
}

/// No value reaches the text of a statement: two filters with the same
/// fields compile to the same text, whatever the fields hold.
pub proof fn law_statement_text_ignores_values(p: GoodsSearchParams, q: GoodsSearchParams)
    requires
        p.same_fields(q),
    ensures
        p.sql() == q.sql(),
{
    lemma_goods_shapes(p, q, Seq::empty(), Seq::empty());
    lemma_text_depends_on_shape(p.predicates(), q.predicates(), false);
}

/// The statement that finds the good with a key.
pub fn good_by_id_statement(goods_id: i32) -> (s: Statement)
    ensures
        s.sql@ == GOODS_BY_ID@,
        values(s.binds@) == seq![ValueView::Int(goods_id)],
{
    let mut binds: Vec<Value> = Vec::new();
    binds.push(Value::Int(goods_id));
    assert(values(binds@) =~= seq![ValueView::Int(goods_id)]);
    Statement { sql: GOODS_BY_ID.to_owned(), binds }
}

/// The statement that finds the good with a material code.
pub fn good_by_material_code_statement(material_code: &str) -> (s: Statement)
    ensures
        s.sql@ == GOODS_BY_MATERIAL_CODE@,
        values(s.binds@) == seq![ValueView::Text(material_code@)],
{
    let mut binds: Vec<Value> = Vec::new();
    binds.push(Value::Text(material_code.to_owned()));
    assert(values(binds@) =~= seq![ValueView::Text(material_code@)]);
    Statement { sql: GOODS_BY_MATERIAL_CODE.to_owned(), binds }
}

/// The statement that deletes the good with a key.
pub fn delete_good_statement(goods_id: i32) -> (s: Statement)
    ensures
        s.sql@ == GOODS_DELETE@,
        values(s.binds@) == seq![ValueView::Int(goods_id)],
{
    let mut binds: Vec<Value> = Vec::new();
    binds.push(Value::Int(goods_id));
    assert(values(binds@) =~= seq![ValueView::Int(goods_id)]);
    Statement { sql: GOODS_DELETE.to_owned(), binds }
}

/// The value of an optional small integer, zero where there is none.
pub fn zero_if_none(v: Option<i16>) -> (r: i16)
    ensures
        r == or_zero(v),
{
    match v {
        Some(x) => x,
        None => 0,
    }
}

/// The value that stands for an optional text.
pub fn bind_text(v: &Option<String>) -> (r: Value)
    ensures
        r@ == text_value(*v),
{
    match v {
        Some(s) => Value::Text(s.clone()),
        None => Value::Null(SqlType::Text),
    }
}

/// The value that stands for an optional list of texts.
pub fn bind_text_list(v: &Option<Vec<String>>) -> (r: Value)
    ensures
        r@ == text_list_value(*v),
{
    match v {
        Some(l) => Value::TextList(copy_texts(l)),
        None => Value::Null(SqlType::TextList),
    }
}

/// The value that stands for an optional decimal.
pub fn bind_decimal(v: Option<Decimal>) -> (r: Value)
    ensures
        r@ == decimal_value(v),
{
    match v {
        Some(d) => Value::Decimal(d),
        None => Value::Null(SqlType::Decimal),
    }
}

/// The value that stands for an optional small integer.
pub fn bind_small_int(v: Option<i16>) -> (r: Value)
    ensures
        r@ == small_int_value(v),
{
    match v {
        Some(n) => Value::SmallInt(n),
        None => Value::Null(SqlType::SmallInt),
    }
}

} // verus!
