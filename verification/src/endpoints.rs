//! What each endpoint asks of its input and says of its outcome.
//!
//! The transport decodes a request and sends a response; which requests
//! are refused before the store is asked, with which words, and which
//! status and message stand for a failure, is decided here.

use crate::error::ErrorKind;
use crate::goods_table::GoodsSearchParams;
use crate::inventory_table::InventorySearchParams;
use crate::request::{GoodsQueryParams, InventoryQueryParams};
use crate::text::{decimal_digits, join2, push_decimal};
use vstd::prelude::*;
use vstd::string::*;

verus! {

/// What an endpoint is about.
#[derive(Clone, Copy, Debug, PartialEq, Eq, Structural)]
pub enum Entity {
    Goods,
    Inventory,
}

/// What an endpoint does.
#[derive(Clone, Copy, Debug, PartialEq, Eq, Structural)]
pub enum Action {
    Search,
    Create,
    Update,
    Delete,
}

/// The status of a request that is refused or asks for what is not there.
pub const BAD_REQUEST: u16 = 400;

/// The status of a failure of the service.
pub const INTERNAL_SERVER_ERROR: u16 = 500;

/// What is said to a request that names no row to work on.
pub open spec fn missing_parameters(entity: Entity, action: Action) -> Seq<char> {
    match (entity, action) {
        (Entity::Goods, Action::Update) =>
            "Query parameters required to specify which goods to update"@,
        (Entity::Goods, Action::Delete) =>
            "Query parameters required to specify which goods to delete"@,
        (Entity::Goods, _) =>
            "Query parameters required. Use goods_name=* or material_code=* to get all goods, or specify search criteria like goods_id, material_code, goods_name, price, volumn_l, mass_g, min_volumn_l, max_volumn_l, min_mass_g, max_mass_g, min_price, max_price"@,
        (Entity::Inventory, Action::Update) =>
            "Query parameters required to specify which inventory items to update"@,
        (Entity::Inventory, Action::Delete) =>
            "Query parameters required to specify which inventory items to delete"@,
        (Entity::Inventory, _) =>
            "Query parameters required. Use goods_name=* or material_code=* to get all inventory, or specify search criteria like item_id, goods_id, material_code, goods_name, quantity, min_quantity, max_quantity, expired_date, min_expired_date, max_expired_date, and all goods search parameters"@,
    }
}

/// What is said of parameters that are wrong.
pub open spec fn invalid_parameters(reason: Seq<char>) -> Seq<char> {
    "Invalid query parameters: "@ + reason
}

/// The name of an operation in a message: `goods update`, `inventory
/// creation` and so on.
pub open spec fn operation_name(entity: Entity, action: Action) -> Seq<char> {
    (match entity {
        Entity::Goods => "goods"@,
        Entity::Inventory => "inventory"@,
    }) + (match action {
        Action::Search => " search"@,
        Action::Create => " creation"@,
        Action::Update => " update"@,
        Action::Delete => " deletion"@,
    })
}

/// What is said where nothing was found to work on.
pub open spec fn nothing_found(entity: Entity, action: Action) -> Seq<char> {
    match (entity, action) {
        (Entity::Goods, Action::Update) => "No goods found to update"@,
        (Entity::Goods, Action::Delete) => "No goods found to delete"@,
        (Entity::Inventory, Action::Update) => "No inventory items found to update"@,
        (Entity::Inventory, Action::Delete) => "No inventory items found to delete"@,
        (Entity::Inventory, Action::Create) =>
            "Referenced goods not found. Please provide valid goods_id, material_code, or complete goods information."@,
        _ => "No records found for "@ + operation_name(entity, action),
    }
}

/// The message for a failure of an operation. It never says what the store
/// said.
pub open spec fn failure_text(kind: ErrorKind, entity: Entity, action: Action) -> Seq<char> {
    match kind {
        ErrorKind::InvalidInput => "Invalid input for "@ + operation_name(entity, action),
        ErrorKind::NotFound => nothing_found(entity, action),
        ErrorKind::Conflict => "Record already exists"@,
        ErrorKind::ReferentialBlock => "Cannot perform operation due to foreign key constraint"@,
        ErrorKind::StoreFailure => "Internal error during "@ + operation_name(entity, action),
    }
}

/// The message for a failure of an operation that had completed `count`
/// rows before: what was completed is said, never passed over.
pub open spec fn batch_failure_text(kind: ErrorKind, entity: Entity, action: Action, count: nat)
    -> Seq<char> {
    if count == 0 {
        failure_text(kind, entity, action)
    } else {
        failure_text(kind, entity, action) + " (completed before the failure: "@ + decimal_digits(
            count,
        ) + ")"@
    }
}

/// The status for a failure: what the caller can mend is a bad request,
/// the rest is a failure of the service.
pub open spec fn failure_code(kind: ErrorKind) -> u16 {
    match kind {
        ErrorKind::InvalidInput => BAD_REQUEST,
        ErrorKind::NotFound => BAD_REQUEST,
        ErrorKind::ReferentialBlock => BAD_REQUEST,
        ErrorKind::Conflict => INTERNAL_SERVER_ERROR,
        ErrorKind::StoreFailure => INTERNAL_SERVER_ERROR,
    }
}

/// What is said to a request that names no row to work on.
pub fn missing_parameters_message(entity: Entity, action: Action) -> (s: &'static str)
    ensures
        s@ == missing_parameters(entity, action),
{
    match entity {
        Entity::Goods => match action {
            Action::Update => "Query parameters required to specify which goods to update",
            Action::Delete => "Query parameters required to specify which goods to delete",
            _ =>
                "Query parameters required. Use goods_name=* or material_code=* to get all goods, or specify search criteria like goods_id, material_code, goods_name, price, volumn_l, mass_g, min_volumn_l, max_volumn_l, min_mass_g, max_mass_g, min_price, max_price",
        },
        Entity::Inventory => match action {
            Action::Update => "Query parameters required to specify which inventory items to update",
            Action::Delete => "Query parameters required to specify which inventory items to delete",
            _ =>
                "Query parameters required. Use goods_name=* or material_code=* to get all inventory, or specify search criteria like item_id, goods_id, material_code, goods_name, quantity, min_quantity, max_quantity, expired_date, min_expired_date, max_expired_date, and all goods search parameters",
        },
    }
}

/// The filter that the parameters of a request on goods stand for. A request
/// without any parameter is refused; so is one with a parameter that is
/// wrong.
pub fn goods_filter(action: Action, query: GoodsQueryParams) -> (r: Result<
    GoodsSearchParams,
    String,
>)
    ensures
        match r {
            Ok(p) => query.any() && query.failure() is None && p == query.filter(),
            Err(e) => if !query.any() {
                e@ == missing_parameters(Entity::Goods, action)
            } else {
                query.failure() is Some && e@ == invalid_parameters(query.failure()->0)
            },
        },
{
    if !query.has_any_params() {
        return Err(missing_parameters_message(Entity::Goods, action).to_owned());
    }
    match query.validate_and_parse() {
        Ok(p) => Ok(p),
        Err(reason) => Err(join2("Invalid query parameters: ", reason.as_str())),
    }
}

/// The filter that the parameters of a request on inventory stand for.
pub fn inventory_filter(action: Action, query: InventoryQueryParams) -> (r: Result<
    InventorySearchParams,
    String,
>)
    ensures
        match r {
            Ok(p) => query.any() && query.failure() is None && p == query.filter(),
            Err(e) => if !query.any() {
                e@ == missing_parameters(Entity::Inventory, action)
            } else {
                query.failure() is Some && e@ == invalid_parameters(query.failure()->0)
            },
        },
{
    if !query.has_any_params() {
        return Err(missing_parameters_message(Entity::Inventory, action).to_owned());
    }
    match query.validate_and_parse() {
        Ok(p) => Ok(p),
        Err(reason) => Err(join2("Invalid query parameters: ", reason.as_str())),
    }
}

/// The name of an operation in a message.
pub fn operation(entity: Entity, action: Action) -> (s: String)
    ensures
        s@ == operation_name(entity, action),
{
    let noun = match entity {
        Entity::Goods => "goods",
        Entity::Inventory => "inventory",
    };
    let verb = match action {
        Action::Search => " search",
        Action::Create => " creation",
        Action::Update => " update",
        Action::Delete => " deletion",
    };
    join2(noun, verb)
}

/// The message for a failure of an operation.
pub fn failure_message(kind: ErrorKind, entity: Entity, action: Action) -> (s: String)
    ensures
        s@ == failure_text(kind, entity, action),
{
    match kind {
        ErrorKind::InvalidInput => join2("Invalid input for ", operation(entity, action).as_str()),
        ErrorKind::NotFound => match entity {
            Entity::Goods => match action {
                Action::Update => "No goods found to update".to_owned(),
                Action::Delete => "No goods found to delete".to_owned(),
                _ => join2("No records found for ", operation(entity, action).as_str()),
            },
            Entity::Inventory => match action {
                Action::Update => "No inventory items found to update".to_owned(),
                Action::Delete => "No inventory items found to delete".to_owned(),
                Action::Create =>
                    "Referenced goods not found. Please provide valid goods_id, material_code, or complete goods information.".to_owned(),
                _ => join2("No records found for ", operation(entity, action).as_str()),
            },
        },
        ErrorKind::Conflict => "Record already exists".to_owned(),
        ErrorKind::ReferentialBlock =>
            "Cannot perform operation due to foreign key constraint".to_owned(),
        ErrorKind::StoreFailure => join2(
            "Internal error during ",
            operation(entity, action).as_str(),
        ),
    }
}

/// The message for a failure of an operation that had completed `count`
/// rows before.
pub fn batch_failure_message(kind: ErrorKind, entity: Entity, action: Action, count: usize) -> (s:
    String)
    ensures
        s@ == batch_failure_text(kind, entity, action, count as nat),
{
    let mut s = failure_message(kind, entity, action);
    if count > 0 {
        s.append(" (completed before the failure: ");
        push_decimal(&mut s, count as u64);
        s.append(")");
    }
    s
}

/// The status for a failure.
pub fn failure_status(kind: ErrorKind) -> (code: u16)
    ensures
        code == failure_code(kind),
{
    match kind {
        ErrorKind::InvalidInput => BAD_REQUEST,
        ErrorKind::NotFound => BAD_REQUEST,
        ErrorKind::ReferentialBlock => BAD_REQUEST,
        ErrorKind::Conflict => INTERNAL_SERVER_ERROR,
        ErrorKind::StoreFailure => INTERNAL_SERVER_ERROR,
    }
}

} // verus!
