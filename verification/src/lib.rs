//! Point-of-sale back end: a product catalog with categories, orders made of
//! line items, and sales aggregates, persisted in an embedded SQLite store.

pub mod catalog;
pub mod cells;
pub mod dashboard;
pub mod db;
pub mod driver;
pub mod messages;
pub mod models;
pub mod orders;
pub mod stamp;
pub mod text;
