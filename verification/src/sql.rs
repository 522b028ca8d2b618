//! Statements for the store: a text with numbered placeholders, and the
//! values that go with it.
//!
//! The text of a statement is made of fixed words and of the names of a
//! closed set of columns. A value that a caller supplied is never part of
//! it: it travels in `binds`, at the index that its placeholder names.

use crate::datetime::Timestamp;
use crate::decimal::Decimal;
use crate::query_builder::placeholder;
use crate::string_utils::{search_pattern, to_search_pattern};
use crate::text::{concat_all, join2, push_all, push_decimal, texts};
use vstd::prelude::*;
use vstd::string::*;

verus! {

/// The columns that a filter can speak of.
#[derive(Clone, Copy, Debug, PartialEq, Eq, Structural)]
pub enum Column {
    GoodsId,
    MaterialCode,
    GoodsName,
    Price,
    VolumnL,
    MassG,
    ItemId,
    Quantity,
    ExpiredDate,
}

/// The tables.
#[derive(Clone, Copy, Debug, PartialEq, Eq, Structural)]
pub enum Table {
    Goods,
    Inventory,
}

/// How a column is held against a value.
#[derive(Clone, Copy, Debug, PartialEq, Eq, Structural)]
pub enum Operator {
    /// `column = value`
    Equals,
    /// `column ILIKE value`: the value is a pattern, matched without regard
    /// to case.
    Matches,
    /// `column >= value`
    AtLeast,
    /// `column <= value`
    AtMost,
}

/// The types of the values that a statement takes.
#[derive(Clone, Copy, Debug, PartialEq, Eq, Structural)]
pub enum SqlType {
    Int,
    SmallInt,
    Text,
    Decimal,
    Timestamp,
    TextList,
}

/// A value that goes with a statement.
#[derive(Clone, Debug, PartialEq)]
pub enum Value {
    Int(i32),
    SmallInt(i16),
    Text(String),
    Decimal(Decimal),
    Timestamp(Timestamp),
    TextList(Vec<String>),
    /// No value, of the given type.
    Null(SqlType),
}

/// A value as plain data.
pub enum ValueView {
    Int(i32),
    SmallInt(i16),
    Text(Seq<char>),
    Decimal(Decimal),
    Timestamp(Timestamp),
    TextList(Seq<Seq<char>>),
    Null(SqlType),
}

impl View for Value {
    type V = ValueView;

    open spec fn view(&self) -> ValueView {
        match self {
            Value::Int(n) => ValueView::Int(*n),
            Value::SmallInt(n) => ValueView::SmallInt(*n),
            Value::Text(s) => ValueView::Text(s@),
            Value::Decimal(d) => ValueView::Decimal(*d),
            Value::Timestamp(t) => ValueView::Timestamp(*t),
            Value::TextList(v) => ValueView::TextList(texts(v@)),
            Value::Null(t) => ValueView::Null(*t),
        }
    }
}

/// One condition of a filter: a column, held against a value.
pub struct Predicate {
    pub column: Column,
    pub operator: Operator,
    pub value: ValueView,
}

/// A filter compiled for a statement: the conditions as text, each preceded
/// by ` AND ` and naming its value by number, and the values in the order of
/// their numbers.
#[derive(Clone, Debug, PartialEq)]
pub struct CompiledFilter {
    pub conditions: Vec<String>,
    pub binds: Vec<Value>,
}

/// A statement for the store.
#[derive(Clone, Debug, PartialEq)]
pub struct Statement {
    pub sql: String,
    pub binds: Vec<Value>,
}

/// The values of a sequence as plain data.
pub open spec fn values(v: Seq<Value>) -> Seq<ValueView> {
    v.map_values(|x: Value| x@)
}

/// The name of a column in a statement on its own table.
pub open spec fn column_name(column: Column) -> Seq<char> {
    match column {
        Column::GoodsId => "goods_id"@,
        Column::MaterialCode => "material_code"@,
        Column::GoodsName => "goods_name"@,
        Column::Price => "price"@,
        Column::VolumnL => "volumn_l"@,
        Column::MassG => "mass_g"@,
        Column::ItemId => "item_id"@,
        Column::Quantity => "quantity"@,
        Column::ExpiredDate => "expired_date"@,
    }
}

/// The name of a table.
pub open spec fn table_name(table: Table) -> Seq<char> {
    match table {
        Table::Goods => "goods"@,
        Table::Inventory => "inventory"@,
    }
}

/// The name of a column in a statement that joins inventory, as `i`, to
/// goods, as `g`.
pub open spec fn joined_column_name(column: Column) -> Seq<char> {
    match column {
        Column::GoodsId => "g.goods_id"@,
        Column::MaterialCode => "g.material_code"@,
        Column::GoodsName => "g.goods_name"@,
        Column::Price => "g.price"@,
        Column::VolumnL => "g.volumn_l"@,
        Column::MassG => "g.mass_g"@,
        Column::ItemId => "i.item_id"@,
        Column::Quantity => "i.quantity"@,
        Column::ExpiredDate => "i.expired_date"@,
    }
}

/// The name of a column, in a joined statement or a plain one.
pub open spec fn column_text(column: Column, joined: bool) -> Seq<char> {
    if joined {
        joined_column_name(column)
    } else {
        column_name(column)
    }
}

/// How an operator is written, with the blanks around it.
pub open spec fn operator_text(operator: Operator) -> Seq<char> {
    match operator {
        Operator::Equals => " = "@,
        Operator::Matches => " ILIKE "@,
        Operator::AtLeast => " >= "@,
        Operator::AtMost => " <= "@,
    }
}

/// The text of the condition whose value has number `n`.
pub open spec fn condition_sql(column: Column, joined: bool, operator: Operator, n: nat) -> Seq<
    char,
> {
    " AND "@ + column_text(column, joined) + operator_text(operator) + placeholder(n)
}

/// The texts of the conditions of a filter, numbered from 1.
pub open spec fn conditions_sql(predicates: Seq<Predicate>, joined: bool) -> Seq<Seq<char>> {
    Seq::new(
        predicates.len(),
        |i: int| condition_sql(predicates[i].column, joined, predicates[i].operator, (i + 1) as nat),
    )
}

/// The values of the conditions of a filter, in order.
pub open spec fn binds_of(predicates: Seq<Predicate>) -> Seq<ValueView> {
    Seq::new(predicates.len(), |i: int| predicates[i].value)
}

/// The text of a search: the head, the conditions, and the tail.
pub open spec fn search_sql(
    head: Seq<char>,
    predicates: Seq<Predicate>,
    joined: bool,
    tail: Seq<char>,
) -> Seq<char> {
    head + concat_all(conditions_sql(predicates, joined)) + tail
}

/// One condition without its value: what the text of a statement depends
/// on.
pub struct Shape {
    pub column: Column,
    pub operator: Operator,
}

/// The conditions of a filter without their values.
pub open spec fn shapes(predicates: Seq<Predicate>) -> Seq<Shape> {
    predicates.map_values(|x: Predicate| Shape { column: x.column, operator: x.operator })
}

/// The shapes of two lists of conditions, one after the other.
pub proof fn lemma_shapes_add(a: Seq<Predicate>, b: Seq<Predicate>)
    ensures
        shapes(a + b) == shapes(a) + shapes(b),
{
    assert(shapes(a + b) =~= shapes(a) + shapes(b));
}

/// Conditions of the same shape have the same text, whatever their values.
pub proof fn lemma_text_depends_on_shape(a: Seq<Predicate>, b: Seq<Predicate>, joined: bool)
    requires
        shapes(a) == shapes(b),
    ensures
        conditions_sql(a, joined) == conditions_sql(b, joined),
{
    assert(shapes(a).len() == a.len());
    assert(shapes(b).len() == b.len());
    assert forall|i: int| 0 <= i < a.len() implies conditions_sql(a, joined)[i] == conditions_sql(
        b,
        joined,
    )[i] by {
        assert(shapes(a)[i] == (Shape { column: a[i].column, operator: a[i].operator }));
        assert(shapes(b)[i] == (Shape { column: b[i].column, operator: b[i].operator }));
    }
    assert(conditions_sql(a, joined) =~= conditions_sql(b, joined));
}

/// The shape of a list of conditions with one more, if there is one more.
pub proof fn lemma_shapes_with(
    before: Seq<Predicate>,
    other: Seq<Predicate>,
    more: Seq<Predicate>,
    more_other: Seq<Predicate>,
)
    requires
        shapes(before) == shapes(other),
        more.len() == more_other.len(),
        more.len() <= 1,
        more.len() == 1 ==> more[0].column == more_other[0].column && more[0].operator
            == more_other[0].operator,
    ensures
        shapes(before + more) == shapes(other + more_other),
{
    lemma_shapes_add(before, more);
    lemma_shapes_add(other, more_other);
    assert(shapes(more) =~= shapes(more_other));
}

/// In a compiled filter the conditions and the values have the same
/// length and correspond index for index: the condition at `i` is the text
/// of the `i`-th condition of the filter and names the value number
/// `i + 1`, and the value at `i` is the value of that condition.
pub proof fn law_conditions_and_values_correspond(
    c: CompiledFilter,
    predicates: Seq<Predicate>,
    joined: bool,
)
    requires
        c.holds(predicates, joined),
    ensures
        c.conditions@.len() == predicates.len(),
        c.binds@.len() == predicates.len(),
        forall|i: int|
            0 <= i < predicates.len() ==> (#[trigger] c.conditions@[i])@ == condition_sql(
                predicates[i].column,
                joined,
                predicates[i].operator,
                (i + 1) as nat,
            ),
        forall|i: int| 0 <= i < predicates.len() ==> (#[trigger] c.binds@[i])@ == predicates[i].value,
{
    assert(texts(c.conditions@).len() == c.conditions@.len());
    assert(values(c.binds@).len() == c.binds@.len());
    assert forall|i: int| 0 <= i < predicates.len() implies (#[trigger] c.conditions@[i])@
        == condition_sql(predicates[i].column, joined, predicates[i].operator, (i + 1) as nat) by {
        assert(texts(c.conditions@)[i] == c.conditions@[i]@);
    }
    assert forall|i: int| 0 <= i < predicates.len() implies (#[trigger] c.binds@[i])@
        == predicates[i].value by {
        assert(values(c.binds@)[i] == c.binds@[i]@);
    }
}

impl CompiledFilter {
    /// The filter holds exactly the given conditions: one text and one value
    /// for each, at the same index, the text naming the value's number.
    pub open spec fn holds(self, predicates: Seq<Predicate>, joined: bool) -> bool {
        &&& texts(self.conditions@) == conditions_sql(predicates, joined)
        &&& values(self.binds@) == binds_of(predicates)
    }

    /// A filter without conditions.
    pub fn new() -> (c: Self)
        ensures
            c.conditions@.len() == 0,
            c.binds@.len() == 0,
            forall|joined: bool| c.holds(Seq::empty(), joined),
    {
        let c = CompiledFilter { conditions: Vec::new(), binds: Vec::new() };
        assert forall|joined: bool| c.holds(Seq::empty(), joined) by {
            assert(texts(c.conditions@) =~= conditions_sql(Seq::empty(), joined));
            assert(values(c.binds@) =~= binds_of(Seq::empty()));
        }
        c
    }

    /// Adds one condition: its text takes the next number, and its value the
    /// same place among the values.
    pub fn add(&mut self, column: Column, joined: bool, operator: Operator, value: Value)
        requires
            old(self).conditions@.len() < usize::MAX,
        ensures
            final(self).conditions@ == old(self).conditions@.push(final(self).conditions@.last()),
            final(self).conditions@.last()@ == condition_sql(
                column,
                joined,
                operator,
                old(self).conditions@.len() + 1,
            ),
            final(self).binds@ == old(self).binds@.push(value),
            forall|predicates: Seq<Predicate>|
                old(self).holds(predicates, joined) ==> #[trigger] final(self).holds(
                    predicates.push(Predicate { column, operator, value: value@ }),
                    joined,
                ),
    {
        let n: usize = self.conditions.len() + 1;
        let text = render_condition(column, joined, operator, n);
        proof {
            let added = Predicate { column, operator, value: value@ };
            assert forall|predicates: Seq<Predicate>|
                old(self).holds(predicates, joined) implies texts(self.conditions@.push(text))
                == conditions_sql(predicates.push(added), joined) && values(
                self.binds@.push(value),
            ) == binds_of(predicates.push(added)) by {
                assert(texts(self.conditions@).len() == predicates.len());
                assert(texts(self.conditions@.push(text)) =~= conditions_sql(
                    predicates.push(added),
                    joined,
                )) by {
                    assert forall|i: int| 0 <= i < predicates.len() implies texts(
                        self.conditions@.push(text),
                    )[i] == conditions_sql(predicates.push(added), joined)[i] by {
                        assert(texts(self.conditions@)[i] == conditions_sql(predicates, joined)[i]);
                    }
                }
                assert(values(self.binds@).len() == predicates.len());
                assert(values(self.binds@.push(value)) =~= binds_of(predicates.push(added))) by {
                    assert forall|i: int| 0 <= i < predicates.len() implies values(
                        self.binds@.push(value),
                    )[i] == binds_of(predicates.push(added))[i] by {
                        assert(values(self.binds@)[i] == binds_of(predicates)[i]);
                    }
                }
            }
        }
        self.conditions.push(text);
        self.binds.push(value);
    }

    /// The statement that searches under this filter.
    pub fn into_statement(self, head: &str, tail: &str) -> (s: Statement)
        ensures
            s.sql@ == head@ + concat_all(texts(self.conditions@)) + tail@,
            s.binds == self.binds,
    {
        let mut sql = head.to_owned();
        push_all(&mut sql, &self.conditions);
        sql.append(tail);
        Statement { sql, binds: self.binds }
    }
}

/// The condition on an integer column, where the filter has one.
pub open spec fn int_predicate(column: Column, operator: Operator, v: Option<i32>) -> Seq<Predicate> {
    match v {
        Some(x) => seq![Predicate { column, operator, value: ValueView::Int(x) }],
        None => Seq::empty(),
    }
}

/// The condition on a decimal column, where the filter has one.
pub open spec fn decimal_predicate(column: Column, operator: Operator, v: Option<Decimal>) -> Seq<
    Predicate,
> {
    match v {
        Some(x) => seq![Predicate { column, operator, value: ValueView::Decimal(x) }],
        None => Seq::empty(),
    }
}

/// The condition on a timestamp column, where the filter has one.
pub open spec fn timestamp_predicate(
    column: Column,
    operator: Operator,
    v: Option<Timestamp>,
) -> Seq<Predicate> {
    match v {
        Some(x) => seq![Predicate { column, operator, value: ValueView::Timestamp(x) }],
        None => Seq::empty(),
    }
}

/// The condition that a text column holds a given text somewhere, in any
/// case, where the filter has one. Its value is the search pattern of the
/// text.
pub open spec fn pattern_predicate(column: Column, v: Option<String>) -> Seq<Predicate> {
    match v {
        Some(x) => seq![
            Predicate {
                column,
                operator: Operator::Matches,
                value: ValueView::Text(search_pattern(x@)),
            },
        ],
        None => Seq::empty(),
    }
}

pub(crate) fn add_int(
    c: &mut CompiledFilter,
    Ghost(before): Ghost<Seq<Predicate>>,
    column: Column,
    joined: bool,
    operator: Operator,
    v: Option<i32>,
)
    requires
        old(c).holds(before, joined),
        old(c).conditions@.len() < 1000,
    ensures
        final(c).conditions@.len() <= old(c).conditions@.len() + 1,
        final(c).holds(before + int_predicate(column, operator, v), joined),
{
    match v {
        Some(x) => {
            c.add(column, joined, operator, Value::Int(x));
            assert(before.push(Predicate { column, operator, value: ValueView::Int(x) }) =~= before
                + int_predicate(column, operator, v));
        },
        None => {
            assert(before + int_predicate(column, operator, v) =~= before);
        },
    }
}

pub(crate) fn add_decimal(
    c: &mut CompiledFilter,
    Ghost(before): Ghost<Seq<Predicate>>,
    column: Column,
    joined: bool,
    operator: Operator,
    v: Option<Decimal>,
)
    requires
        old(c).holds(before, joined),
        old(c).conditions@.len() < 1000,
    ensures
        final(c).conditions@.len() <= old(c).conditions@.len() + 1,
        final(c).holds(before + decimal_predicate(column, operator, v), joined),
{
    match v {
        Some(x) => {
            c.add(column, joined, operator, Value::Decimal(x));
            assert(before.push(Predicate { column, operator, value: ValueView::Decimal(x) })
                =~= before + decimal_predicate(column, operator, v));
        },
        None => {
            assert(before + decimal_predicate(column, operator, v) =~= before);
        },
    }
}

pub(crate) fn add_timestamp(
    c: &mut CompiledFilter,
    Ghost(before): Ghost<Seq<Predicate>>,
    column: Column,
    joined: bool,
    operator: Operator,
    v: Option<Timestamp>,
)
    requires
        old(c).holds(before, joined),
        old(c).conditions@.len() < 1000,
    ensures
        final(c).conditions@.len() <= old(c).conditions@.len() + 1,
        final(c).holds(before + timestamp_predicate(column, operator, v), joined),
{
    match v {
        Some(x) => {
            c.add(column, joined, operator, Value::Timestamp(x));
            assert(before.push(Predicate { column, operator, value: ValueView::Timestamp(x) })
                =~= before + timestamp_predicate(column, operator, v));
        },
        None => {
            assert(before + timestamp_predicate(column, operator, v) =~= before);
        },
    }
}

pub(crate) fn add_pattern(
    c: &mut CompiledFilter,
    Ghost(before): Ghost<Seq<Predicate>>,
    column: Column,
    joined: bool,
    v: &Option<String>,
)
    requires
        old(c).holds(before, joined),
        old(c).conditions@.len() < 1000,
    ensures
        final(c).conditions@.len() <= old(c).conditions@.len() + 1,
        final(c).holds(before + pattern_predicate(column, *v), joined),
{
    match v {
        Some(x) => {
            let pattern = to_search_pattern(x.as_str());
            c.add(column, joined, Operator::Matches, Value::Text(pattern));
            assert(before.push(
                Predicate {
                    column,
                    operator: Operator::Matches,
                    value: ValueView::Text(search_pattern(x@)),
                },
            ) =~= before + pattern_predicate(column, *v));
        },
        None => {
            assert(before + pattern_predicate(column, *v) =~= before);
        },
    }
}

/// The name of a column as a statement writes it.
pub fn column_str(column: Column, joined: bool) -> (s: &'static str)
    ensures
        s@ == column_text(column, joined),
{
    if joined {
        match column {
            Column::GoodsId => "g.goods_id",
            Column::MaterialCode => "g.material_code",
            Column::GoodsName => "g.goods_name",
            Column::Price => "g.price",
            Column::VolumnL => "g.volumn_l",
            Column::MassG => "g.mass_g",
            Column::ItemId => "i.item_id",
            Column::Quantity => "i.quantity",
            Column::ExpiredDate => "i.expired_date",
        }
    } else {
        match column {
            Column::GoodsId => "goods_id",
            Column::MaterialCode => "material_code",
            Column::GoodsName => "goods_name",
            Column::Price => "price",
            Column::VolumnL => "volumn_l",
            Column::MassG => "mass_g",
            Column::ItemId => "item_id",
            Column::Quantity => "quantity",
            Column::ExpiredDate => "expired_date",
        }
    }
}

/// The name of a table as a statement writes it.
pub fn table_str(table: Table) -> (s: &'static str)
    ensures
        s@ == table_name(table),
{
    match table {
        Table::Goods => "goods",
        Table::Inventory => "inventory",
    }
}

/// A statement with one value.
pub fn statement_with(sql: String, value: Value) -> (s: Statement)
    ensures
        s.sql == sql,
        values(s.binds@) == seq![value@],
{
    let mut binds: Vec<Value> = Vec::new();
    binds.push(value);
    assert(values(binds@) =~= seq![value@]);
    Statement { sql, binds }
}

/// How an operator is written.
pub fn operator_str(operator: Operator) -> (s: &'static str)
    ensures
        s@ == operator_text(operator),
{
    match operator {
        Operator::Equals => " = ",
        Operator::Matches => " ILIKE ",
        Operator::AtLeast => " >= ",
        Operator::AtMost => " <= ",
    }
}

/// The text of the condition whose value has number `n`.
pub fn render_condition(column: Column, joined: bool, operator: Operator, n: usize) -> (s: String)
    ensures
        s@ == condition_sql(column, joined, operator, n as nat),
{
    let mut s = join2(" AND ", column_str(column, joined));
    s.append(operator_str(operator));
    s.append("$");
    push_decimal(&mut s, n as u64);
    assert(s@ =~= condition_sql(column, joined, operator, n as nat));
    s
}

/// A statement without values.
pub fn plain_statement(sql: &str) -> (s: Statement)
    ensures
        s.sql@ == sql@,
        s.binds@.len() == 0,
{
    Statement { sql: sql.to_owned(), binds: Vec::new() }
}

} // verus!
