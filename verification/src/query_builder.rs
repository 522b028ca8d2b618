//! Query texts with numbered placeholders.
//!
//! A builder starts from a base query and collects conditions. Each
//! condition is written with `?` where its value goes; the builder numbers
//! it. Values never reach the text: they travel beside it, in the order of
//! their numbers.

use crate::text::{
    chars_of, concat_all, decimal_digits, push_all, push_chars, push_decimal, replace_all,
    replace_chars, texts,
};
use vstd::prelude::*;
use vstd::string::*;

verus! {

/// Dynamic query builder for search operations.
pub struct SearchQueryBuilder {
    base_query: String,
    conditions: Vec<String>,
    bind_count: usize,
}

/// What a builder holds: the base query, the conditions so far, each already
/// numbered and preceded by ` AND `, and how many values they take.
pub struct SearchQueryBuilderView {
    pub base_query: Seq<char>,
    pub conditions: Seq<Seq<char>>,
    pub bind_count: nat,
}

/// The placeholder of the `n`-th value: `$n`.
pub open spec fn placeholder(n: nat) -> Seq<char> {
    "$"@ + decimal_digits(n)
}

/// A condition as it enters the query: preceded by ` AND `, with the
/// placeholder of the `n`-th value for each `?`.
pub open spec fn condition_text(condition: Seq<char>, n: nat) -> Seq<char> {
    " AND "@ + replace_all(condition, "?"@, placeholder(n))
}

/// The order clause: nothing, or ` ORDER BY ` and the column.
pub open spec fn order_clause(order_by: Option<Seq<char>>) -> Seq<char> {
    match order_by {
        Some(column) => " ORDER BY "@ + column,
        None => Seq::empty(),
    }
}

/// The query that a builder stands for.
pub open spec fn built_query(b: SearchQueryBuilderView, order_by: Option<Seq<char>>) -> Seq<char> {
    b.base_query + concat_all(b.conditions) + order_clause(order_by)
}

/// The view of an optional text.
pub open spec fn text_of(t: Option<&str>) -> Option<Seq<char>> {
    match t {
        Some(s) => Some(s@),
        None => None,
    }
}

impl View for SearchQueryBuilder {
    type V = SearchQueryBuilderView;

    closed spec fn view(&self) -> SearchQueryBuilderView {
        SearchQueryBuilderView {
            base_query: self.base_query@,
            conditions: texts(self.conditions@),
            bind_count: self.bind_count as nat,
        }
    }
}

impl SearchQueryBuilder {
    /// A builder with no condition yet.
    pub fn new(base_query: String) -> (b: Self)
        ensures
            b@.base_query == base_query@,
            b@.conditions == Seq::<Seq<char>>::empty(),
            b@.bind_count == 0,
    {
        let b = SearchQueryBuilder { base_query, conditions: Vec::new(), bind_count: 0 };
        assert(texts(b.conditions@) =~= Seq::<Seq<char>>::empty());
        b
    }

    /// Add a condition with a parameter placeholder, and say which number
    /// its value has.
    pub fn add_condition(&mut self, condition: &str) -> (n: usize)
        requires
            old(self)@.bind_count < usize::MAX,
        ensures
            n == old(self)@.bind_count + 1,
            final(self)@.bind_count == n,
            final(self)@.base_query == old(self)@.base_query,
            final(self)@.conditions == old(self)@.conditions.push(
                condition_text(condition@, n as nat),
            ),
    {
        self.bind_count += 1;
        let mut mark = "$".to_owned();
        push_decimal(&mut mark, self.bind_count as u64);
        let replaced = replace_chars(
            &chars_of(condition),
            &chars_of("?"),
            &chars_of(mark.as_str()),
        );
        let mut text = " AND ".to_owned();
        push_chars(&mut text, &replaced, 0);
        proof {
            assert(replaced@.skip(0) =~= replaced@);
            assert(texts(self.conditions@.push(text)) =~= texts(self.conditions@).push(text@));
        }
        self.conditions.push(text);
        self.bind_count
    }

    /// Add an optional condition if the value is there.
    pub fn add_optional_condition<T>(&mut self, condition: &str, value: &Option<T>) -> (n: Option<
        usize,
    >)
        requires
            old(self)@.bind_count < usize::MAX,
        ensures
            value is Some ==> {
                &&& n == Some((old(self)@.bind_count + 1) as usize)
                &&& final(self)@.bind_count == old(self)@.bind_count + 1
                &&& final(self)@.base_query == old(self)@.base_query
                &&& final(self)@.conditions == old(self)@.conditions.push(
                    condition_text(condition@, old(self)@.bind_count + 1),
                )
            },
            value is None ==> n is None && final(self)@ == old(self)@,
    {
        if value.is_some() {
            Some(self.add_condition(condition))
        } else {
            None
        }
    }

    /// Build the final query string.
    pub fn build(self, order_by: Option<&str>) -> (query: String)
        ensures
            query@ == built_query(self@, text_of(order_by)),
    {
        let mut query = self.base_query;
        push_all(&mut query, &self.conditions);
        match order_by {
            Some(column) => {
                query.append(" ORDER BY ");
                query.append(column);
                assert(query@ =~= built_query(self@, text_of(order_by)));
            },
            None => {
                assert(query@ =~= built_query(self@, text_of(order_by)));
            },
        }
        query
    }

    /// Get the current bind count.
    pub fn bind_count(&self) -> (n: usize)
        ensures
            n == self@.bind_count,
    {
        self.bind_count
    }
}

} // verus!
