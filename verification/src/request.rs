//! What arrives from a caller: query parameters as texts, and the bodies of
//! create and update requests. Everything is checked here, and parsed where
//! it is text, before any of it reaches a statement.

use crate::datetime::{timestamp_from_text, Timestamp};
use crate::decimal::{decimal_from_text, Decimal};
use crate::goods_table::{CreateGoodRequest, GoodsSearchParams, UpdateGoodRequest};
use crate::inventory_table::{CreateInventoryRequest, InventorySearchParams, UpdateInventoryRequest};
use crate::text::{decimal_digits, lowercase, optional_text, push_decimal, text_eq, texts};
use crate::validation::{
    outcome_of, parse_safe_datetime, parse_safe_decimal, parse_safe_integer, safe_datetime_outcome,
    safe_decimal_outcome, safe_integer_outcome, safe_string_outcome, validate_safe_string,
};
use vstd::prelude::*;
use vstd::string::*;

verus! {

/// The query parameters of a request on goods, as the texts that arrived.
#[derive(Clone, Debug, PartialEq)]
pub struct GoodsQueryParams {
    pub goods_id: Option<String>,
    pub material_code: Option<String>,
    pub goods_name: Option<String>,
    pub price: Option<String>,
    pub volumn_l: Option<String>,
    pub mass_g: Option<String>,
    pub min_volumn_l: Option<String>,
    pub max_volumn_l: Option<String>,
    pub min_mass_g: Option<String>,
    pub max_mass_g: Option<String>,
    pub min_price: Option<String>,
    pub max_price: Option<String>,
}

/// The query parameters of a request on inventory, as the texts that
/// arrived.
#[derive(Clone, Debug, PartialEq)]
pub struct InventoryQueryParams {
    pub item_id: Option<String>,
    pub quantity: Option<String>,
    pub min_quantity: Option<String>,
    pub max_quantity: Option<String>,
    pub expired_date: Option<String>,
    pub min_expired_date: Option<String>,
    pub max_expired_date: Option<String>,
    pub goods_id: Option<String>,
    pub material_code: Option<String>,
    pub goods_name: Option<String>,
    pub price: Option<String>,
    pub volumn_l: Option<String>,
    pub mass_g: Option<String>,
    pub min_volumn_l: Option<String>,
    pub max_volumn_l: Option<String>,
    pub min_mass_g: Option<String>,
    pub max_mass_g: Option<String>,
    pub min_price: Option<String>,
    pub max_price: Option<String>,
}

/// The outcome of a check: nothing, or what is wrong.
pub type Check = Result<(), Seq<char>>;

/// The first failure of two checks made in order.
pub open spec fn then(first: Check, second: Check) -> Check {
    match first {
        Err(e) => Err(e),
        Ok(_) => second,
    }
}

/// The check of a free text under a field name.
pub open spec fn text_check(s: Seq<char>, field: Seq<char>) -> Check {
    safe_string_outcome(s, field, lowercase(s))
}

/// The check of a free text that may be absent.
pub open spec fn optional_text_check(s: Option<String>, field: Seq<char>) -> Check {
    match s {
        Some(t) => text_check(t@, field),
        None => Ok(()),
    }
}

/// The name under which the `i`-th line of a description is reported.
pub open spec fn description_field(i: nat) -> Seq<char> {
    "description["@ + decimal_digits(i) + "]"@
}

/// The check of the lines of a description from index `i` on: the first
/// line that fails decides.
pub open spec fn lines_check(lines: Seq<Seq<char>>, i: nat) -> Check
    decreases lines.len() - i,
{
    if i >= lines.len() {
        Ok(())
    } else {
        then(text_check(lines[i as int], description_field(i)), lines_check(lines, i + 1))
    }
}

/// The check of a description that may be absent.
pub open spec fn description_check(description: Option<Vec<String>>) -> Check {
    match description {
        Some(lines) => lines_check(texts(lines@), 0),
        None => Ok(()),
    }
}

/// A price must not be below zero.
pub open spec fn price_check(price: Option<Decimal>) -> Check {
    if price is Some && price->0.mantissa < 0 {
        Err("Price cannot be negative"@)
    } else {
        Ok(())
    }
}

/// A volume must be above zero.
pub open spec fn volume_check(volume: Option<Decimal>) -> Check {
    if volume is Some && volume->0.mantissa <= 0 {
        Err("Volume must be positive"@)
    } else {
        Ok(())
    }
}

/// A mass must be above zero.
pub open spec fn mass_check(mass: Option<Decimal>) -> Check {
    if mass is Some && mass->0.mantissa <= 0 {
        Err("Mass must be positive"@)
    } else {
        Ok(())
    }
}

/// A quantity must not be below zero.
pub open spec fn quantity_check(quantity: Option<i32>) -> Check {
    if quantity is Some && quantity->0 < 0 {
        Err("Quantity cannot be negative"@)
    } else {
        Ok(())
    }
}

/// The three amounts of a good, checked in the order price, volume, mass.
pub open spec fn amounts_check(
    price: Option<Decimal>,
    volume: Option<Decimal>,
    mass: Option<Decimal>,
) -> Check {
    then(price_check(price), then(volume_check(volume), mass_check(mass)))
}

/// The two names and the description of a good, checked in that order.
pub open spec fn names_check(
    material_code: Option<String>,
    goods_name: Option<String>,
    description: Option<Vec<String>>,
) -> Check {
    then(
        optional_text_check(material_code, "material_code"@),
        then(optional_text_check(goods_name, "goods_name"@), description_check(description)),
    )
}

/// An integer parameter that may be absent: nothing, the number, or what is
/// wrong with the text.
pub open spec fn int_field(v: Option<String>, field: Seq<char>) -> Result<Option<i32>, Seq<char>> {
    match v {
        None => Ok(None),
        Some(s) => match safe_integer_outcome(s@, field) {
            Ok(n) => Ok(Some(n as i32)),
            Err(e) => Err(e),
        },
    }
}

/// A decimal parameter that may be absent.
pub open spec fn decimal_field(v: Option<String>, field: Seq<char>) -> Result<
    Option<Decimal>,
    Seq<char>,
> {
    match v {
        None => Ok(None),
        Some(s) => match safe_decimal_outcome(s@, field, decimal_from_text(s@)) {
            Ok(d) => Ok(Some(d)),
            Err(e) => Err(e),
        },
    }
}

/// A point in time as a parameter that may be absent.
pub open spec fn timestamp_field(v: Option<String>, field: Seq<char>) -> Result<
    Option<Timestamp>,
    Seq<char>,
> {
    match v {
        None => Ok(None),
        Some(s) => match safe_datetime_outcome(s@, field, timestamp_from_text(s@)) {
            Ok(t) => Ok(Some(t)),
            Err(e) => Err(e),
        },
    }
}

/// The value that the last pair with the given name holds, if any pair has
/// that name.
pub open spec fn lookup(pairs: Seq<(String, String)>, name: Seq<char>) -> Option<Seq<char>>
    decreases pairs.len(),
{
    if pairs.len() == 0 {
        None
    } else if pairs.last().0@ == name {
        Some(pairs.last().1@)
    } else {
        lookup(pairs.drop_last(), name)
    }
}

impl GoodsQueryParams {
    /// A parameter is present.
    pub open spec fn any(self) -> bool {
        ||| self.goods_id is Some
        ||| self.material_code is Some
        ||| self.goods_name is Some
        ||| self.price is Some
        ||| self.volumn_l is Some
        ||| self.mass_g is Some
        ||| self.min_volumn_l is Some
        ||| self.max_volumn_l is Some
        ||| self.min_mass_g is Some
        ||| self.max_mass_g is Some
        ||| self.min_price is Some
        ||| self.max_price is Some
    }

    /// What is wrong with the first parameter that is wrong, in the order
    /// of the fields; nothing if all are in order.
    pub open spec fn failure(self) -> Option<Seq<char>> {
        if int_field(self.goods_id, "goods_id"@) is Err {
            Some(int_field(self.goods_id, "goods_id"@)->Err_0)
        } else if optional_text_check(self.material_code, "material_code"@) is Err {
            Some(optional_text_check(self.material_code, "material_code"@)->Err_0)
        } else if optional_text_check(self.goods_name, "goods_name"@) is Err {
            Some(optional_text_check(self.goods_name, "goods_name"@)->Err_0)
        } else if decimal_field(self.price, "price"@) is Err {
            Some(decimal_field(self.price, "price"@)->Err_0)
        } else if decimal_field(self.volumn_l, "volumn_l"@) is Err {
            Some(decimal_field(self.volumn_l, "volumn_l"@)->Err_0)
        } else if decimal_field(self.mass_g, "mass_g"@) is Err {
            Some(decimal_field(self.mass_g, "mass_g"@)->Err_0)
        } else if decimal_field(self.min_volumn_l, "min_volumn_l"@) is Err {
            Some(decimal_field(self.min_volumn_l, "min_volumn_l"@)->Err_0)
        } else if decimal_field(self.max_volumn_l, "max_volumn_l"@) is Err {
            Some(decimal_field(self.max_volumn_l, "max_volumn_l"@)->Err_0)
        } else if decimal_field(self.min_mass_g, "min_mass_g"@) is Err {
            Some(decimal_field(self.min_mass_g, "min_mass_g"@)->Err_0)
        } else if decimal_field(self.max_mass_g, "max_mass_g"@) is Err {
            Some(decimal_field(self.max_mass_g, "max_mass_g"@)->Err_0)
        } else if decimal_field(self.min_price, "min_price"@) is Err {
            Some(decimal_field(self.min_price, "min_price"@)->Err_0)
        } else if decimal_field(self.max_price, "max_price"@) is Err {
            Some(decimal_field(self.max_price, "max_price"@)->Err_0)
        } else {
            None
        }
    }

    /// The filter that the parameters stand for, where all are in order: the
    /// two texts as they are, every other field parsed.
    pub open spec fn filter(self) -> GoodsSearchParams {
        GoodsSearchParams {
            goods_id: int_field(self.goods_id, "goods_id"@)->Ok_0,
            material_code: self.material_code,
            goods_name: self.goods_name,
            price: decimal_field(self.price, "price"@)->Ok_0,
            volumn_l: decimal_field(self.volumn_l, "volumn_l"@)->Ok_0,
            mass_g: decimal_field(self.mass_g, "mass_g"@)->Ok_0,
            min_volumn_l: decimal_field(self.min_volumn_l, "min_volumn_l"@)->Ok_0,
            max_volumn_l: decimal_field(self.max_volumn_l, "max_volumn_l"@)->Ok_0,
            min_mass_g: decimal_field(self.min_mass_g, "min_mass_g"@)->Ok_0,
            max_mass_g: decimal_field(self.max_mass_g, "max_mass_g"@)->Ok_0,
            min_price: decimal_field(self.min_price, "min_price"@)->Ok_0,
            max_price: decimal_field(self.max_price, "max_price"@)->Ok_0,
        }
    }

    /// Checks and parses every parameter. The first one that is wrong
    /// decides the error; otherwise the result is the filter.
    pub fn validate_and_parse(self) -> (r: Result<GoodsSearchParams, String>)
        ensures
            match r {
                Ok(p) => self.failure() is None && p == self.filter(),
                Err(e) => self.failure() == Some(e@),
            },
    {
        let goods_id = match parse_int_field(&self.goods_id, "goods_id") {
            Ok(v) => v,
            Err(e) => {
                return Err(e);
            },
        };
        match check_text_field(&self.material_code, "material_code") {
            Ok(_) => {},
            Err(e) => {
                return Err(e);
            },
        }
        match check_text_field(&self.goods_name, "goods_name") {
            Ok(_) => {},
            Err(e) => {
                return Err(e);
            },
        }
        let price = match parse_decimal_field(&self.price, "price") {
            Ok(v) => v,
            Err(e) => {
                return Err(e);
            },
        };
        let volumn_l = match parse_decimal_field(&self.volumn_l, "volumn_l") {
            Ok(v) => v,
            Err(e) => {
                return Err(e);
            },
        };
        let mass_g = match parse_decimal_field(&self.mass_g, "mass_g") {
            Ok(v) => v,
            Err(e) => {
                return Err(e);
            },
        };
        let min_volumn_l = match parse_decimal_field(&self.min_volumn_l, "min_volumn_l") {
            Ok(v) => v,
            Err(e) => {
                return Err(e);
            },
        };
        let max_volumn_l = match parse_decimal_field(&self.max_volumn_l, "max_volumn_l") {
            Ok(v) => v,
            Err(e) => {
                return Err(e);
            },
        };
        let min_mass_g = match parse_decimal_field(&self.min_mass_g, "min_mass_g") {
            Ok(v) => v,
            Err(e) => {
                return Err(e);
            },
        };
        let max_mass_g = match parse_decimal_field(&self.max_mass_g, "max_mass_g") {
            Ok(v) => v,
            Err(e) => {
                return Err(e);
            },
        };
        let min_price = match parse_decimal_field(&self.min_price, "min_price") {
            Ok(v) => v,
            Err(e) => {
                return Err(e);
            },
        };
        let max_price = match parse_decimal_field(&self.max_price, "max_price") {
            Ok(v) => v,
            Err(e) => {
                return Err(e);
            },
        };
        Ok(
            GoodsSearchParams {
                goods_id,
                material_code: self.material_code,
                goods_name: self.goods_name,
                price,
                volumn_l,
                mass_g,
                min_volumn_l,
                max_volumn_l,
                min_mass_g,
                max_mass_g,
                min_price,
                max_price,
            },
        )
    }

    /// Whether any parameter is present.
    pub fn has_any_params(&self) -> (r: bool)
        ensures
            r == self.any(),
    {
        self.goods_id.is_some() || self.material_code.is_some() || self.goods_name.is_some()
            || self.price.is_some() || self.volumn_l.is_some() || self.mass_g.is_some()
            || self.min_volumn_l.is_some() || self.max_volumn_l.is_some()
            || self.min_mass_g.is_some() || self.max_mass_g.is_some() || self.min_price.is_some()
            || self.max_price.is_some()
    }
}

impl InventoryQueryParams {
    /// A parameter is present.
    pub open spec fn any(self) -> bool {
        ||| self.item_id is Some
        ||| self.quantity is Some
        ||| self.min_quantity is Some
        ||| self.max_quantity is Some
        ||| self.expired_date is Some
        ||| self.min_expired_date is Some
        ||| self.max_expired_date is Some
        ||| self.goods().any()
    }

    /// The parameters that speak of the good.
    pub open spec fn goods(self) -> GoodsQueryParams {
        GoodsQueryParams {
            goods_id: self.goods_id,
            material_code: self.material_code,
            goods_name: self.goods_name,
            price: self.price,
            volumn_l: self.volumn_l,
            mass_g: self.mass_g,
            min_volumn_l: self.min_volumn_l,
            max_volumn_l: self.max_volumn_l,
            min_mass_g: self.min_mass_g,
            max_mass_g: self.max_mass_g,
            min_price: self.min_price,
            max_price: self.max_price,
        }
    }

    /// What is wrong with the first parameter that is wrong: those of the
    /// lot in the order of the fields, then those of the good.
    pub open spec fn failure(self) -> Option<Seq<char>> {
        if int_field(self.item_id, "item_id"@) is Err {
            Some(int_field(self.item_id, "item_id"@)->Err_0)
        } else if int_field(self.quantity, "quantity"@) is Err {
            Some(int_field(self.quantity, "quantity"@)->Err_0)
        } else if int_field(self.min_quantity, "min_quantity"@) is Err {
            Some(int_field(self.min_quantity, "min_quantity"@)->Err_0)
        } else if int_field(self.max_quantity, "max_quantity"@) is Err {
            Some(int_field(self.max_quantity, "max_quantity"@)->Err_0)
        } else if timestamp_field(self.expired_date, "expired_date"@) is Err {
            Some(timestamp_field(self.expired_date, "expired_date"@)->Err_0)
        } else if timestamp_field(self.min_expired_date, "min_expired_date"@) is Err {
            Some(timestamp_field(self.min_expired_date, "min_expired_date"@)->Err_0)
        } else if timestamp_field(self.max_expired_date, "max_expired_date"@) is Err {
            Some(timestamp_field(self.max_expired_date, "max_expired_date"@)->Err_0)
        } else {
            self.goods().failure()
        }
    }

    /// The filter that the parameters stand for, where all are in order.
    pub open spec fn filter(self) -> InventorySearchParams {
        InventorySearchParams {
            item_id: int_field(self.item_id, "item_id"@)->Ok_0,
            quantity: int_field(self.quantity, "quantity"@)->Ok_0,
            min_quantity: int_field(self.min_quantity, "min_quantity"@)->Ok_0,
            max_quantity: int_field(self.max_quantity, "max_quantity"@)->Ok_0,
            expired_date: timestamp_field(self.expired_date, "expired_date"@)->Ok_0,
            min_expired_date: timestamp_field(self.min_expired_date, "min_expired_date"@)->Ok_0,
            max_expired_date: timestamp_field(self.max_expired_date, "max_expired_date"@)->Ok_0,
            goods_params: self.goods().filter(),
        }
    }

    /// Checks and parses every parameter. The first one that is wrong
    /// decides the error; otherwise the result is the filter.
    pub fn validate_and_parse(self) -> (r: Result<InventorySearchParams, String>)
        ensures
            match r {
                Ok(p) => self.failure() is None && p == self.filter(),
                Err(e) => self.failure() == Some(e@),
            },
    {
        let item_id = match parse_int_field(&self.item_id, "item_id") {
            Ok(v) => v,
            Err(e) => {
                return Err(e);
            },
        };
        let quantity = match parse_int_field(&self.quantity, "quantity") {
            Ok(v) => v,
            Err(e) => {
                return Err(e);
            },
        };
        let min_quantity = match parse_int_field(&self.min_quantity, "min_quantity") {
            Ok(v) => v,
            Err(e) => {
                return Err(e);
            },
        };
        let max_quantity = match parse_int_field(&self.max_quantity, "max_quantity") {
            Ok(v) => v,
            Err(e) => {
                return Err(e);
            },
        };
        let expired_date = match parse_timestamp_field(&self.expired_date, "expired_date") {
            Ok(v) => v,
            Err(e) => {
                return Err(e);
            },
        };
        let min_expired_date = match parse_timestamp_field(
            &self.min_expired_date,
            "min_expired_date",
        ) {
            Ok(v) => v,
            Err(e) => {
                return Err(e);
            },
        };
        let max_expired_date = match parse_timestamp_field(
            &self.max_expired_date,
            "max_expired_date",
        ) {
            Ok(v) => v,
            Err(e) => {
                return Err(e);
            },
        };
        let goods_query_params = GoodsQueryParams {
            goods_id: self.goods_id,
            material_code: self.material_code,
            goods_name: self.goods_name,
            price: self.price,
            volumn_l: self.volumn_l,
            mass_g: self.mass_g,
            min_volumn_l: self.min_volumn_l,
            max_volumn_l: self.max_volumn_l,
            min_mass_g: self.min_mass_g,
            max_mass_g: self.max_mass_g,
            min_price: self.min_price,
            max_price: self.max_price,
        };
        let goods_params = match goods_query_params.validate_and_parse() {
            Ok(p) => p,
            Err(e) => {
                return Err(e);
            },
        };
        Ok(
            InventorySearchParams {
                item_id,
                quantity,
                min_quantity,
                max_quantity,
                expired_date,
                min_expired_date,
                max_expired_date,
                goods_params,
            },
        )
    }

    /// Whether any parameter is present.
    pub fn has_any_params(&self) -> (r: bool)
        ensures
            r == self.any(),
    {
        self.item_id.is_some() || self.quantity.is_some() || self.min_quantity.is_some()
            || self.max_quantity.is_some() || self.expired_date.is_some()
            || self.min_expired_date.is_some() || self.max_expired_date.is_some()
            || self.goods_id.is_some() || self.material_code.is_some() || self.goods_name.is_some()
            || self.price.is_some() || self.volumn_l.is_some() || self.mass_g.is_some()
            || self.min_volumn_l.is_some() || self.max_volumn_l.is_some()
            || self.min_mass_g.is_some() || self.max_mass_g.is_some() || self.min_price.is_some()
            || self.max_price.is_some()
    }
}

impl CreateGoodRequest {
    /// What validation says of the draft: the two names and the description
    /// are safe texts, the price is not negative, volume and mass are
    /// positive. The first check that fails decides.
    pub open spec fn validation(self) -> Check {
        then(
            names_check(Some(self.material_code), Some(self.goods_name), self.description),
            amounts_check(Some(self.price), Some(self.volumn_l), Some(self.mass_g)),
        )
    }

    /// Validates the draft.
    pub fn validate(&self) -> (r: Result<(), String>)
        ensures
            outcome_of(r) == self.validation(),
    {
        match validate_safe_string(self.material_code.as_str(), "material_code") {
            Ok(_) => {},
            Err(e) => {
                return Err(e);
            },
        }
        match validate_safe_string(self.goods_name.as_str(), "goods_name") {
            Ok(_) => {},
            Err(e) => {
                return Err(e);
            },
        }
        match check_description(&self.description) {
            Ok(_) => {},
            Err(e) => {
                return Err(e);
            },
        }
        check_amounts(Some(self.price), Some(self.volumn_l), Some(self.mass_g))
    }
}

impl UpdateGoodRequest {
    /// What validation says of the patch: it has a field, and each field
    /// that is present is in order.
    pub open spec fn validation(self) -> Check {
        if self.is_empty() {
            Err("At least one field must be provided for update"@)
        } else {
            then(
                names_check(self.material_code, self.goods_name, self.description),
                amounts_check(self.price, self.volumn_l, self.mass_g),
            )
        }
    }

    /// Validates the patch.
    pub fn validate(&self) -> (r: Result<(), String>)
        ensures
            outcome_of(r) == self.validation(),
    {
        if self.has_no_field() {
            return Err("At least one field must be provided for update".to_owned());
        }
        match check_names(&self.material_code, &self.goods_name, &self.description) {
            Ok(_) => {},
            Err(e) => {
                return Err(e);
            },
        }
        check_amounts(self.price, self.volumn_l, self.mass_g)
    }
}

impl CreateInventoryRequest {
    /// The draft names a good or describes one in full.
    pub open spec fn identifies_good(self) -> bool {
        self.goods_id is Some || self.material_code is Some || self.describes_good()
    }

    /// What validation says of the draft: it identifies a good, the
    /// quantity is not negative, and each field that is present is in
    /// order.
    pub open spec fn validation(self) -> Check {
        if !self.identifies_good() {
            Err(
                "Either goods_id, material_code, or complete goods information (goods_name, price, volumn_l, mass_g) is required"@,
            )
        } else {
            then(
                quantity_check(Some(self.quantity)),
                then(
                    names_check(self.material_code, self.goods_name, self.description),
                    amounts_check(self.price, self.volumn_l, self.mass_g),
                ),
            )
        }
    }

    /// Validates the draft.
    pub fn validate(&self) -> (r: Result<(), String>)
        ensures
            outcome_of(r) == self.validation(),
    {
        if self.goods_id.is_none() && self.material_code.is_none() && !self.has_full_description() {
            return Err(
                "Either goods_id, material_code, or complete goods information (goods_name, price, volumn_l, mass_g) is required".to_owned(),
            );
        }
        if self.quantity < 0 {
            return Err("Quantity cannot be negative".to_owned());
        }
        match check_names(&self.material_code, &self.goods_name, &self.description) {
            Ok(_) => {},
            Err(e) => {
                return Err(e);
            },
        }
        check_amounts(self.price, self.volumn_l, self.mass_g)
    }
}

impl UpdateInventoryRequest {
    /// What validation says of the patch: it has a field, and each field
    /// that is present is in order, the quantity last.
    pub open spec fn validation(self) -> Check {
        if self.is_empty() {
            Err("At least one field must be provided for update"@)
        } else {
            then(
                names_check(self.material_code, self.goods_name, self.description),
                then(
                    amounts_check(self.price, self.volumn_l, self.mass_g),
                    quantity_check(self.quantity),
                ),
            )
        }
    }

    /// Validates the patch.
    pub fn validate(&self) -> (r: Result<(), String>)
        ensures
            outcome_of(r) == self.validation(),
    {
        if self.has_no_field() {
            return Err("At least one field must be provided for update".to_owned());
        }
        match check_names(&self.material_code, &self.goods_name, &self.description) {
            Ok(_) => {},
            Err(e) => {
                return Err(e);
            },
        }
        match check_amounts(self.price, self.volumn_l, self.mass_g) {
            Ok(_) => {},
            Err(e) => {
                return Err(e);
            },
        }
        match self.quantity {
            Some(q) => {
                if q < 0 {
                    return Err("Quantity cannot be negative".to_owned());
                }
            },
            None => {},
        }
        Ok(())
    }
}

/// Reads an integer parameter that may be absent.
pub fn parse_int_field(v: &Option<String>, field_name: &str) -> (r: Result<Option<i32>, String>)
    ensures
        outcome_of(r) == int_field(*v, field_name@),
{
    match v {
        None => Ok(None),
        Some(s) => match parse_safe_integer(s.as_str(), field_name) {
            Ok(n) => Ok(Some(n)),
            Err(e) => Err(e),
        },
    }
}

/// Reads a decimal parameter that may be absent.
pub fn parse_decimal_field(v: &Option<String>, field_name: &str) -> (r: Result<
    Option<Decimal>,
    String,
>)
    ensures
        outcome_of(r) == decimal_field(*v, field_name@),
{
    match v {
        None => Ok(None),
        Some(s) => match parse_safe_decimal(s.as_str(), field_name) {
            Ok(d) => Ok(Some(d)),
            Err(e) => Err(e),
        },
    }
}

/// Reads a point in time from a parameter that may be absent.
pub fn parse_timestamp_field(v: &Option<String>, field_name: &str) -> (r: Result<
    Option<Timestamp>,
    String,
>)
    ensures
        outcome_of(r) == timestamp_field(*v, field_name@),
{
    match v {
        None => Ok(None),
        Some(s) => match parse_safe_datetime(s.as_str(), field_name) {
            Ok(t) => Ok(Some(t)),
            Err(e) => Err(e),
        },
    }
}

/// Checks a free text that may be absent.
pub fn check_text_field(v: &Option<String>, field_name: &str) -> (r: Result<(), String>)
    ensures
        outcome_of(r) == optional_text_check(*v, field_name@),
{
    match v {
        None => Ok(()),
        Some(s) => validate_safe_string(s.as_str(), field_name),
    }
}

/// Checks the lines of a description that may be absent.
pub fn check_description(description: &Option<Vec<String>>) -> (r: Result<(), String>)
    ensures
        outcome_of(r) == description_check(*description),
{
    match description {
        None => Ok(()),
        Some(lines) => {
            let mut i: usize = 0;
            while i < lines.len()
                invariant
                    i <= lines.len(),
                    *description == Some(*lines),
                    lines_check(texts(lines@), 0) == lines_check(texts(lines@), i as nat),
                decreases lines.len() - i,
            {
                let mut field = "description[".to_owned();
                push_decimal(&mut field, i as u64);
                field.append("]");
                assert(field@ =~= description_field(i as nat));
                assert(texts(lines@).len() == lines@.len());
                assert(texts(lines@)[i as int] == lines@[i as int]@);
                assert(lines_check(texts(lines@), i as nat) == then(
                    text_check(texts(lines@)[i as int], description_field(i as nat)),
                    lines_check(texts(lines@), (i + 1) as nat),
                ));
                match validate_safe_string(lines[i].as_str(), field.as_str()) {
                    Ok(_) => {},
                    Err(e) => {
                        return Err(e);
                    },
                }
                i += 1;
            }
            Ok(())
        },
    }
}

/// Checks the two names and the description of a good.
pub fn check_names(
    material_code: &Option<String>,
    goods_name: &Option<String>,
    description: &Option<Vec<String>>,
) -> (r: Result<(), String>)
    ensures
        outcome_of(r) == names_check(*material_code, *goods_name, *description),
{
    match check_text_field(material_code, "material_code") {
        Ok(_) => {},
        Err(e) => {
            return Err(e);
        },
    }
    match check_text_field(goods_name, "goods_name") {
        Ok(_) => {},
        Err(e) => {
            return Err(e);
        },
    }
    check_description(description)
}

/// Checks the three amounts of a good.
pub fn check_amounts(price: Option<Decimal>, volume: Option<Decimal>, mass: Option<Decimal>) -> (r:
    Result<(), String>)
    ensures
        outcome_of(r) == amounts_check(price, volume, mass),
{
    match price {
        Some(p) => {
            if p.is_negative() {
                return Err("Price cannot be negative".to_owned());
            }
        },
        None => {},
    }
    match volume {
        Some(v) => {
            if !v.is_positive() {
                return Err("Volume must be positive".to_owned());
            }
        },
        None => {},
    }
    match mass {
        Some(m) => {
            if !m.is_positive() {
                return Err("Mass must be positive".to_owned());
            }
        },
        None => {},
    }
    Ok(())
}

/// The value of the last pair with the given name.
pub fn find_param(pairs: &Vec<(String, String)>, name: &str) -> (r: Option<String>)
    ensures
        optional_text(r) == lookup(pairs@, name@),
{
    let mut found: Option<String> = None;
    let mut i: usize = 0;
    assert(pairs@.take(0) =~= Seq::<(String, String)>::empty());
    while i < pairs.len()
        invariant
            i <= pairs.len(),
            optional_text(found) == lookup(pairs@.take(i as int), name@),
        decreases pairs.len() - i,
    {
        proof {
            assert(pairs@.take(i + 1).drop_last() =~= pairs@.take(i as int));
            assert(pairs@.take(i + 1).last() == pairs@[i as int]);
        }
        if text_eq(pairs[i].0.as_str(), name) {
            found = Some(pairs[i].1.clone());
        }
        i += 1;
    }
    assert(pairs@.take(pairs.len() as int) =~= pairs@);
    found
}

/// The parameters of a request on goods, picked from the pairs of a query
/// string by their names.
pub fn extract_goods_query_params(query: &Vec<(String, String)>) -> (r: GoodsQueryParams)
    ensures
        optional_text(r.goods_id) == lookup(query@, "goods_id"@),
        optional_text(r.material_code) == lookup(query@, "material_code"@),
        optional_text(r.goods_name) == lookup(query@, "goods_name"@),
        optional_text(r.price) == lookup(query@, "price"@),
        optional_text(r.volumn_l) == lookup(query@, "volumn_l"@),
        optional_text(r.mass_g) == lookup(query@, "mass_g"@),
        optional_text(r.min_volumn_l) == lookup(query@, "min_volumn_l"@),
        optional_text(r.max_volumn_l) == lookup(query@, "max_volumn_l"@),
        optional_text(r.min_mass_g) == lookup(query@, "min_mass_g"@),
        optional_text(r.max_mass_g) == lookup(query@, "max_mass_g"@),
        optional_text(r.min_price) == lookup(query@, "min_price"@),
        optional_text(r.max_price) == lookup(query@, "max_price"@),
{
    GoodsQueryParams {
        goods_id: find_param(query, "goods_id"),
        material_code: find_param(query, "material_code"),
        goods_name: find_param(query, "goods_name"),
        price: find_param(query, "price"),
        volumn_l: find_param(query, "volumn_l"),
        mass_g: find_param(query, "mass_g"),
        min_volumn_l: find_param(query, "min_volumn_l"),
        max_volumn_l: find_param(query, "max_volumn_l"),
        min_mass_g: find_param(query, "min_mass_g"),
        max_mass_g: find_param(query, "max_mass_g"),
        min_price: find_param(query, "min_price"),
        max_price: find_param(query, "max_price"),
    }
}

/// The parameters of a request on inventory, picked from the pairs of a
/// query string by their names.
pub fn extract_inventory_query_params(query: &Vec<(String, String)>) -> (r: InventoryQueryParams)
    ensures
        optional_text(r.item_id) == lookup(query@, "item_id"@),
        optional_text(r.quantity) == lookup(query@, "quantity"@),
        optional_text(r.min_quantity) == lookup(query@, "min_quantity"@),
        optional_text(r.max_quantity) == lookup(query@, "max_quantity"@),
        optional_text(r.expired_date) == lookup(query@, "expired_date"@),
        optional_text(r.min_expired_date) == lookup(query@, "min_expired_date"@),
        optional_text(r.max_expired_date) == lookup(query@, "max_expired_date"@),
        optional_text(r.goods_id) == lookup(query@, "goods_id"@),
        optional_text(r.material_code) == lookup(query@, "material_code"@),
        optional_text(r.goods_name) == lookup(query@, "goods_name"@),
        optional_text(r.price) == lookup(query@, "price"@),
        optional_text(r.volumn_l) == lookup(query@, "volumn_l"@),
        optional_text(r.mass_g) == lookup(query@, "mass_g"@),
        optional_text(r.min_volumn_l) == lookup(query@, "min_volumn_l"@),
        optional_text(r.max_volumn_l) == lookup(query@, "max_volumn_l"@),
        optional_text(r.min_mass_g) == lookup(query@, "min_mass_g"@),
        optional_text(r.max_mass_g) == lookup(query@, "max_mass_g"@),
        optional_text(r.min_price) == lookup(query@, "min_price"@),
        optional_text(r.max_price) == lookup(query@, "max_price"@),
{
    InventoryQueryParams {
        item_id: find_param(query, "item_id"),
        quantity: find_param(query, "quantity"),
        min_quantity: find_param(query, "min_quantity"),
        max_quantity: find_param(query, "max_quantity"),
        expired_date: find_param(query, "expired_date"),
        min_expired_date: find_param(query, "min_expired_date"),
        max_expired_date: find_param(query, "max_expired_date"),
        goods_id: find_param(query, "goods_id"),
        material_code: find_param(query, "material_code"),
        goods_name: find_param(query, "goods_name"),
        price: find_param(query, "price"),
        volumn_l: find_param(query, "volumn_l"),
        mass_g: find_param(query, "mass_g"),
        min_volumn_l: find_param(query, "min_volumn_l"),
        max_volumn_l: find_param(query, "max_volumn_l"),
        min_mass_g: find_param(query, "min_mass_g"),
        max_mass_g: find_param(query, "max_mass_g"),
        min_price: find_param(query, "min_price"),
        max_price: find_param(query, "max_price"),
    }
}

} // verus!
