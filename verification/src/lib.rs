//! Goods and inventory: filters compiled to parameterised statements, and the
//! decisions that keep the two tables consistent while rows are created,
//! searched, changed and removed.

pub mod config;
pub mod database;
pub mod datetime;
pub mod decimal;
pub mod endpoints;
pub mod error;
pub mod flow;
pub mod goods_flow;
pub mod goods_table;
pub mod inventory_flow;
pub mod inventory_table;
pub mod laws;
pub mod memory_store;
pub mod model;
pub mod operations;
pub mod pagination;
pub mod query_builder;
pub mod request;
pub mod response;
pub mod sql;
pub mod store;
pub mod string_utils;
pub mod text;
pub mod validation;
