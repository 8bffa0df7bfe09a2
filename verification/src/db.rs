//! The store handle and its schema.

use crate::catalog::category_params;
use crate::cells::{CellView, SqlParam};
use crate::driver::{execute, execute_batch, open_at, open_in_memory};
use crate::messages::failure;
use crate::models::{Category, CategoryView, Product, ProductView};
use crate::text::{join, starts_with};
use vstd::prelude::*;
use vstd::string::StringExecFns;

verus! {

/// A connection to the store, and where the store lives.
///
/// What the store holds is not part of this value: it is whatever the
/// database engine has on record. Operations that change the store take the
/// handle by `&mut`, so that one runs at a time.
pub struct DbState {
    pub conn: rusqlite::Connection,
    pub db_path: String,
}

/// The four tables and the index on the lines' order. Products refer to
/// categories, lines to orders and products, and a payment method is one of
/// the two stored texts.
pub const CREATE_SCHEMA: &'static str =
    "CREATE TABLE IF NOT EXISTS categories (id TEXT PRIMARY KEY NOT NULL, label TEXT NOT NULL, color TEXT NOT NULL); CREATE TABLE IF NOT EXISTS products (id TEXT PRIMARY KEY NOT NULL, name TEXT NOT NULL, price INTEGER NOT NULL, category_id TEXT NOT NULL, available INTEGER NOT NULL DEFAULT 1, FOREIGN KEY (category_id) REFERENCES categories(id)); CREATE TABLE IF NOT EXISTS orders (id TEXT PRIMARY KEY NOT NULL, created_at TEXT NOT NULL, total INTEGER NOT NULL, payment_method TEXT NOT NULL CHECK (payment_method IN ('cash', 'card'))); CREATE TABLE IF NOT EXISTS order_items (id TEXT PRIMARY KEY NOT NULL, order_id TEXT NOT NULL, product_id TEXT NOT NULL, product_name TEXT NOT NULL, unit_price INTEGER NOT NULL, quantity INTEGER NOT NULL, total INTEGER NOT NULL, FOREIGN KEY (order_id) REFERENCES orders (id), FOREIGN KEY (product_id) REFERENCES products (id)); CREATE INDEX IF NOT EXISTS idx_order_items_order_id ON order_items (order_id);";

/// Creates the tables that do not exist yet.
pub fn create_tables(conn: &rusqlite::Connection) -> (r: Result<(), String>)
    ensures
        r matches Err(message) ==> starts_with(message@, "Failed to create tables: "@),
{
    match execute_batch(conn, CREATE_SCHEMA) {
        Ok(()) => Ok(()),
        Err(e) => Err(failure("Failed to create tables: ", &e)),
    }
}

/// Drops the four tables, dependents first.
pub const DROP_SCHEMA: &'static str =
    "DROP TABLE IF EXISTS order_items; DROP TABLE IF EXISTS orders; DROP TABLE IF EXISTS products; DROP TABLE IF EXISTS categories;";

/// Has the store enforce references between tables on this connection.
pub const ENFORCE_REFERENCES: &'static str = "PRAGMA foreign_keys=ON;";

/// Has the store keep a write-ahead log, so that readers do not wait for a
/// writer.
pub const WRITE_AHEAD_LOG: &'static str = "PRAGMA journal_mode=WAL;";

/// Inserts a default category, unless its identifier is taken. Takes the
/// category's row.
pub const INSERT_DEFAULT_CATEGORY: &'static str =
    "INSERT OR IGNORE INTO categories (id, label, color) VALUES (?1, ?2, ?3)";

/// Inserts a default product, unless its identifier is taken. Takes identifier,
/// name, price, category.
pub const INSERT_DEFAULT_PRODUCT: &'static str =
    "INSERT OR IGNORE INTO products (id, name, price, category_id) VALUES (?1, ?2, ?3, ?4)";

/// A category as the defaults name it.
pub open spec fn seed_category(id: &str, label: &str, color: &str) -> CategoryView {
    CategoryView { id: id@, label: label@, color: color@ }
}

/// A product as the defaults name it: available.
pub open spec fn seed_product(id: &str, name: &str, price: i64, category_id: &str) -> ProductView {
    ProductView { id: id@, name: name@, price, category_id: category_id@, available: true }
}

/// The categories that a new store starts with.
pub open spec fn default_category_views() -> Seq<CategoryView> {
    seq![
        seed_category("snack", "Snack", "#e8a735"),
        seed_category("boisson-sans-alcool", "Boisson sans alcool", "#3b82f6"),
        seed_category("alcool", "Alcool", "#8b5cf6"),
        seed_category("sucreries", "Sucreries", "#e84393"),
        seed_category("autre", "Autre", "#6b7280"),
    ]
}

/// The products that a new store starts with.
pub open spec fn default_product_views() -> Seq<ProductView> {
    seq![
        seed_product("the", "Thé", 100, "boisson-sans-alcool"),
        seed_product("cafe", "Café", 100, "boisson-sans-alcool"),
        seed_product("soda", "Soda", 200, "boisson-sans-alcool"),
        seed_product("jus-de-fruit", "Jus de fruit", 200, "boisson-sans-alcool"),
        seed_product("biere-pichet", "Bière (pichet)", 1200, "alcool"),
        seed_product("biere-25cl", "Bière (25cl)", 300, "alcool"),
        seed_product("cidre-doux", "Cidre (doux)", 300, "alcool"),
        seed_product("cidre-brut", "Cidre (brut)", 300, "alcool"),
        seed_product("consigne-verre", "Consigne verre", 100, "autre"),
        seed_product("consigne-pichet", "Consigne pichet", 500, "autre"),
        seed_product("bonbon", "Bonbon/M&Ms/Twix", 100, "sucreries"),
        seed_product("part-de-gateau", "Part de gâteau", 100, "sucreries"),
        seed_product("crepe-nature", "Crêpe nature", 200, "sucreries"),
        seed_product("crepe-sucre", "Crêpe au sucre", 250, "sucreries"),
        seed_product("crepe-confiture", "Crêpe à la confiture", 350, "sucreries"),
        seed_product("crepe-caramel", "Crêpe au caramel", 350, "sucreries"),
        seed_product("crepe-nutella", "Crêpe au Nutella", 350, "sucreries"),
        seed_product("cake-sale", "Cake salé", 100, "snack"),
        seed_product("sandwich", "Sandwich", 400, "snack"),
        seed_product("panini", "Panini", 400, "snack"),
    ]
}

/// Every default product belongs to a default category, so the store takes
/// the defaults with references enforced.
pub proof fn lemma_default_products_have_categories()
    ensures
        forall|i: int|
            0 <= i < default_product_views().len() ==> exists|j: int|
                0 <= j < default_category_views().len() && (
                #[trigger] default_category_views()[j]).id == (
                #[trigger] default_product_views()[i]).category_id,
{
    let products = default_product_views();
    let categories = default_category_views();
    assert forall|i: int| 0 <= i < products.len() implies exists|j: int|
        0 <= j < categories.len() && (#[trigger] categories[j]).id == (
        #[trigger] products[i]).category_id by {
        let j: int = if i < 4 {
            1
        } else if i < 8 {
            2
        } else if i < 10 {
            4
        } else if i < 17 {
            3
        } else {
            0
        };
        assert(0 <= j < categories.len() && categories[j].id == products[i].category_id);
    }
}

fn category(id: &str, label: &str, color: &str) -> (c: Category)
    ensures
        c@ == seed_category(id, label, color),
{
    Category {
        id: String::from_str(id),
        label: String::from_str(label),
        color: String::from_str(color),
    }
}

fn product(id: &str, name: &str, price: i64, category_id: &str) -> (p: Product)
    ensures
        p@ == seed_product(id, name, price, category_id),
{
    Product {
        id: String::from_str(id),
        name: String::from_str(name),
        price,
        category_id: String::from_str(category_id),
        available: true,
    }
}

/// The categories that a new store starts with.
pub fn default_categories() -> (v: Vec<Category>)
    ensures
        v.deep_view() == default_category_views(),
{
    let v = vec![
        category("snack", "Snack", "#e8a735"),
        category("boisson-sans-alcool", "Boisson sans alcool", "#3b82f6"),
        category("alcool", "Alcool", "#8b5cf6"),
        category("sucreries", "Sucreries", "#e84393"),
        category("autre", "Autre", "#6b7280"),
    ];
    assert(v.deep_view() =~= default_category_views());
    v
}

/// The products that a new store starts with.
pub fn default_products() -> (v: Vec<Product>)
    ensures
        v.deep_view() == default_product_views(),
{
    let v = vec![
        product("the", "Thé", 100, "boisson-sans-alcool"),
        product("cafe", "Café", 100, "boisson-sans-alcool"),
        product("soda", "Soda", 200, "boisson-sans-alcool"),
        product("jus-de-fruit", "Jus de fruit", 200, "boisson-sans-alcool"),
        product("biere-pichet", "Bière (pichet)", 1200, "alcool"),
        product("biere-25cl", "Bière (25cl)", 300, "alcool"),
        product("cidre-doux", "Cidre (doux)", 300, "alcool"),
        product("cidre-brut", "Cidre (brut)", 300, "alcool"),
        product("consigne-verre", "Consigne verre", 100, "autre"),
        product("consigne-pichet", "Consigne pichet", 500, "autre"),
        product("bonbon", "Bonbon/M&Ms/Twix", 100, "sucreries"),
        product("part-de-gateau", "Part de gâteau", 100, "sucreries"),
        product("crepe-nature", "Crêpe nature", 200, "sucreries"),
        product("crepe-sucre", "Crêpe au sucre", 250, "sucreries"),
        product("crepe-confiture", "Crêpe à la confiture", 350, "sucreries"),
        product("crepe-caramel", "Crêpe au caramel", 350, "sucreries"),
        product("crepe-nutella", "Crêpe au Nutella", 350, "sucreries"),
        product("cake-sale", "Cake salé", 100, "snack"),
        product("sandwich", "Sandwich", 400, "snack"),
        product("panini", "Panini", 400, "snack"),
    ];
    assert(v.deep_view() =~= default_product_views());
    v
}

/// The values that `INSERT_DEFAULT_PRODUCT` is run with. Availability is
/// not among them: the table's default makes the product available.
pub fn default_product_params(p: &Product) -> (params: Vec<SqlParam>)
    ensures
        params.deep_view() == seq![
            CellView::Text(p@.id),
            CellView::Text(p@.name),
            CellView::Integer(p@.price),
            CellView::Text(p@.category_id),
        ],
{
    let params = vec![
        SqlParam::Text(p.id.clone()),
        SqlParam::Text(p.name.clone()),
        SqlParam::Integer(p.price),
        SqlParam::Text(p.category_id.clone()),
    ];
    assert(params.deep_view() =~= seq![
        CellView::Text(p@.id),
        CellView::Text(p@.name),
        CellView::Integer(p@.price),
        CellView::Text(p@.category_id),
    ]);
    params
}

/// A message that reports a default that the store refused.
pub open spec fn is_seed_error(message: Seq<char>) -> bool {
    ||| starts_with(message, "Failed to insert default category: "@)
    ||| starts_with(message, "Failed to insert default product: "@)
}

/// Inserts the default categories and products that the store does not
/// hold yet; what it holds under the same identifier stays as it is.
pub fn create_default_data(conn: &rusqlite::Connection) -> (r: Result<(), String>)
    ensures
        r matches Err(message) ==> is_seed_error(message@),
{
    let categories = default_categories();
    let mut i: usize = 0;
    while i < categories.len()
        invariant
            i <= categories.len(),
        decreases categories.len() - i,
    {
        let c = &categories[i];
        let params = category_params(&c.id, &c.label, &c.color);
        match execute(conn, INSERT_DEFAULT_CATEGORY, &params) {
            Ok(_) => {},
            Err(e) => {
                return Err(failure("Failed to insert default category: ", &e));
            },
        }
        i += 1;
    }
    let products = default_products();
    let mut j: usize = 0;
    while j < products.len()
        invariant
            j <= products.len(),
        decreases products.len() - j,
    {
        let params = default_product_params(&products[j]);
        match execute(conn, INSERT_DEFAULT_PRODUCT, &params) {
            Ok(_) => {},
            Err(e) => {
                return Err(failure("Failed to insert default product: ", &e));
            },
        }
        j += 1;
    }
    Ok(())
}

/// What can go wrong while a store is set up.
pub open spec fn is_setup_error(message: Seq<char>) -> bool {
    ||| starts_with(message, "Failed to enable foreign keys: "@)
    ||| starts_with(message, "Failed to create tables: "@)
    ||| is_seed_error(message)
}

/// Makes a connection ready: references enforced, tables created, defaults
/// inserted.
fn prepare(conn: &rusqlite::Connection) -> (r: Result<(), String>)
    ensures
        r matches Err(message) ==> is_setup_error(message@),
{
    match execute_batch(conn, ENFORCE_REFERENCES) {
        Ok(()) => {},
        Err(e) => {
            return Err(failure("Failed to enable foreign keys: ", &e));
        },
    }
    create_tables(conn)?;
    create_default_data(conn)
}

/// Opens a store in memory, with its tables and the defaults.
pub fn init_db_in_memory() -> (r: Result<DbState, String>)
    ensures
        match r {
            Ok(db) => db.db_path@ == ":memory:"@,
            Err(message) => starts_with(message@, "Failed to open in-memory database: "@)
                || is_setup_error(message@),
        },
{
    let conn = match open_in_memory() {
        Ok(conn) => conn,
        Err(e) => {
            return Err(failure("Failed to open in-memory database: ", &e));
        },
    };
    prepare(&conn)?;
    Ok(DbState { conn, db_path: String::from_str(":memory:") })
}

/// How the message begins when the database file cannot be opened.
pub open spec fn open_context(path: Seq<char>) -> Seq<char> {
    "Failed to open database at "@ + path + ": "@
}

/// What can go wrong once the database file is open.
pub open spec fn is_start_error(message: Seq<char>) -> bool {
    ||| starts_with(message, "Failed to set WAL mode: "@)
    ||| is_setup_error(message)
}

/// Makes a store of a connection that was just opened on the file at
/// `db_path`: write-ahead logging, then references enforced, the tables and
/// the defaults where they are missing.
pub fn init_db_with(conn: rusqlite::Connection, db_path: String) -> (r: Result<DbState, String>)
    ensures
        match r {
            Ok(db) => db.db_path@ == db_path@,
            Err(message) => is_start_error(message@),
        },
{
    match execute_batch(&conn, WRITE_AHEAD_LOG) {
        Ok(()) => {},
        Err(e) => {
            return Err(failure("Failed to set WAL mode: ", &e));
        },
    }
    prepare(&conn)?;
    Ok(DbState { conn, db_path })
}

/// Opens the store in the file at `path`, creating the file, the tables and
/// the defaults where they are missing, with write-ahead logging.
pub fn init_db_at(path: &str) -> (r: Result<DbState, String>)
    ensures
        match r {
            Ok(db) => db.db_path@ == path@,
            Err(message) => starts_with(message@, open_context(path@)) || is_start_error(message@),
        },
{
    match open_at(path) {
        Ok(conn) => init_db_with(conn, String::from_str(path)),
        Err(e) => {
            let context = join("Failed to open database at ", path);
            let context = join(context.as_str(), ": ");
            Err(failure(context.as_str(), &e))
        },
    }
}

/// Drops every table, then sets the store up anew with the defaults. All
/// categories, products and orders that were recorded are gone.
pub fn reset_database_inner(db: &mut DbState) -> (r: Result<(), String>)
    ensures
        r matches Err(message) ==> {
            ||| starts_with(message@, "Drop tables error: "@)
            ||| starts_with(message@, "Failed to create tables: "@)
            ||| is_seed_error(message@)
        },
        final(db).db_path == old(db).db_path,
{
    match execute_batch(&db.conn, DROP_SCHEMA) {
        Ok(()) => {},
        Err(e) => {
            return Err(failure("Drop tables error: ", &e));
        },
    }
    create_tables(&db.conn)?;
    create_default_data(&db.conn)
}

} // verus!
