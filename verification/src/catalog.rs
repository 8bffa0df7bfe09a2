//! Catalog management: categories and the products in them.
//!
//! The store decides what a statement finds and changes. What is proved here
//! is everything on this side of it: which statement runs with which values,
//! how a row is read, and what is reported for each thing the store can
//! answer.

use crate::cells::{
    integer_at, read_integer, read_rows, read_text, text_at, Cell, CellView, FromRow, SqlParam,
};
use crate::db::DbState;
use crate::driver::{describe, execute, query_all, query_row};
use crate::messages::{
    conflict, conflict_message, failure, is_query_error, is_row_mapping_error, not_found,
    not_found_message, query_error, read_failure,
};
use crate::models::{
    outcome, Category, CategoryView, CreateCategoryPayload, CreateProductPayload, NewProductView,
    Product, ProductView, UpdateCategoryPayload, UpdateProductPayload,
};
use crate::stamp::new_id;
use crate::text::{join, lemma_concat_starts_with, starts_with};
use vstd::prelude::*;

verus! {

/// All categories, by label.
pub const SELECT_CATEGORIES: &'static str =
    "SELECT id, label, color FROM categories ORDER BY label";

/// Inserts a category. Takes the category's row.
pub const INSERT_CATEGORY: &'static str =
    "INSERT INTO categories (id, label, color) VALUES (?1, ?2, ?3)";

/// New label and color for the category of an identifier. Takes label,
/// color, identifier.
pub const UPDATE_CATEGORY: &'static str =
    "UPDATE categories SET label = ?1, color = ?2 WHERE id = ?3";

/// How many products belong to the category of an identifier.
pub const COUNT_PRODUCTS_OF_CATEGORY: &'static str =
    "SELECT COUNT(*) FROM products WHERE category_id = ?1";

/// Deletes the category of an identifier.
pub const DELETE_CATEGORY: &'static str = "DELETE FROM categories WHERE id = ?1";

/// All products, by name.
pub const SELECT_PRODUCTS: &'static str =
    "SELECT id, name, price, category_id, available FROM products ORDER BY name";

/// Inserts a product. Takes the product's row.
pub const INSERT_PRODUCT: &'static str =
    "INSERT INTO products (id, name, price, category_id, available) VALUES (?1, ?2, ?3, ?4, ?5)";

/// New name, price, category and availability for the product of an
/// identifier. Takes them in this order, the identifier last.
pub const UPDATE_PRODUCT: &'static str =
    "UPDATE products SET name = ?1, price = ?2, category_id = ?3, available = ?4 WHERE id = ?5";

/// The stored availability of the product of an identifier.
pub const SELECT_AVAILABLE: &'static str = "SELECT available FROM products WHERE id = ?1";

/// New availability for the product of an identifier. Takes the number to
/// store, then the identifier.
pub const UPDATE_AVAILABLE: &'static str = "UPDATE products SET available = ?1 WHERE id = ?2";

/// How many order lines refer to the product of an identifier.
pub const COUNT_ITEMS_OF_PRODUCT: &'static str =
    "SELECT COUNT(*) FROM order_items WHERE product_id = ?1";

/// Deletes the product of an identifier.
pub const DELETE_PRODUCT: &'static str = "DELETE FROM products WHERE id = ?1";

/// The row that stands for a category: its three texts, in the order in
/// which `SELECT_CATEGORIES` yields them and `INSERT_CATEGORY` takes them.
pub open spec fn category_row(c: CategoryView) -> Seq<CellView> {
    seq![CellView::Text(c.id), CellView::Text(c.label), CellView::Text(c.color)]
}

/// The number under which availability is stored.
pub open spec fn flag_of(available: bool) -> i64 {
    if available {
        1
    } else {
        0
    }
}

/// Whether a stored number means available: every number but zero does.
pub open spec fn flag_is_set(flag: i64) -> bool {
    flag != 0
}

/// The row that stands for a product, in the order in which
/// `SELECT_PRODUCTS` yields its columns and `INSERT_PRODUCT` takes them.
pub open spec fn product_row(p: ProductView) -> Seq<CellView> {
    seq![
        CellView::Text(p.id),
        CellView::Text(p.name),
        CellView::Integer(p.price),
        CellView::Text(p.category_id),
        CellView::Integer(flag_of(p.available)),
    ]
}

impl FromRow for Category {
    open spec fn of_row(row: Seq<CellView>) -> Result<CategoryView, Seq<char>> {
        let id = text_at(row, 0);
        let label = text_at(row, 1);
        let color = text_at(row, 2);
        if id is Err {
            Err(id->Err_0)
        } else if label is Err {
            Err(label->Err_0)
        } else if color is Err {
            Err(color->Err_0)
        } else {
            Ok(CategoryView { id: id->Ok_0, label: label->Ok_0, color: color->Ok_0 })
        }
    }

    fn from_row(row: &Vec<Cell>) -> (r: Result<Category, String>) {
        let id = read_text(row, 0)?;
        let label = read_text(row, 1)?;
        let color = read_text(row, 2)?;
        Ok(Category { id, label, color })
    }
}

impl FromRow for Product {
    open spec fn of_row(row: Seq<CellView>) -> Result<ProductView, Seq<char>> {
        let id = text_at(row, 0);
        let name = text_at(row, 1);
        let price = integer_at(row, 2);
        let category_id = text_at(row, 3);
        let flag = integer_at(row, 4);
        if id is Err {
            Err(id->Err_0)
        } else if name is Err {
            Err(name->Err_0)
        } else if price is Err {
            Err(price->Err_0)
        } else if category_id is Err {
            Err(category_id->Err_0)
        } else if flag is Err {
            Err(flag->Err_0)
        } else {
            Ok(
                ProductView {
                    id: id->Ok_0,
                    name: name->Ok_0,
                    price: price->Ok_0,
                    category_id: category_id->Ok_0,
                    available: flag_is_set(flag->Ok_0),
                },
            )
        }
    }

    fn from_row(row: &Vec<Cell>) -> (r: Result<Product, String>) {
        let id = read_text(row, 0)?;
        let name = read_text(row, 1)?;
        let price = read_integer(row, 2)?;
        let category_id = read_text(row, 3)?;
        let flag = read_integer(row, 4)?;
        Ok(Product { id, name, price, category_id, available: flag != 0 })
    }
}

/// A category is read back from its own row.
pub proof fn lemma_category_row_round_trip(c: CategoryView)
    ensures
        Category::of_row(category_row(c)) == Ok::<CategoryView, Seq<char>>(c),
{
}

/// A product is read back from its own row, availability included.
pub proof fn lemma_product_row_round_trip(p: ProductView)
    ensures
        Product::of_row(product_row(p)) == Ok::<ProductView, Seq<char>>(p),
{
}

/// The values that `INSERT_CATEGORY` is run with: the category's row.
pub fn category_params(id: &String, label: &String, color: &String) -> (params: Vec<SqlParam>)
    ensures
        params.deep_view() == category_row(CategoryView { id: id@, label: label@, color: color@ }),
{
    let params = vec![
        SqlParam::Text(id.clone()),
        SqlParam::Text(label.clone()),
        SqlParam::Text(color.clone()),
    ];
    assert(params.deep_view() =~= category_row(
        CategoryView { id: id@, label: label@, color: color@ },
    ));
    params
}

/// The values that `INSERT_PRODUCT` is run with: the product's row.
pub fn product_params(p: &Product) -> (params: Vec<SqlParam>)
    ensures
        params.deep_view() == product_row(p@),
{
    let flag: i64 = if p.available {
        1
    } else {
        0
    };
    let params = vec![
        SqlParam::Text(p.id.clone()),
        SqlParam::Text(p.name.clone()),
        SqlParam::Integer(p.price),
        SqlParam::Text(p.category_id.clone()),
        SqlParam::Integer(flag),
    ];
    assert(params.deep_view() =~= product_row(p@));
    params
}

/// The one value of a statement that takes an identifier and nothing else.
pub fn key_params(id: &String) -> (params: Vec<SqlParam>)
    ensures
        params.deep_view() == seq![CellView::Text(id@)],
{
    let params = vec![SqlParam::Text(id.clone())];
    assert(params.deep_view() =~= seq![CellView::Text(id@)]);
    params
}

/// The values that `UPDATE_CATEGORY` is run with.
pub fn category_update_params(payload: &UpdateCategoryPayload) -> (params: Vec<SqlParam>)
    ensures
        params.deep_view() == seq![
            CellView::Text(payload@.label),
            CellView::Text(payload@.color),
            CellView::Text(payload@.id),
        ],
{
    let params = vec![
        SqlParam::Text(payload.label.clone()),
        SqlParam::Text(payload.color.clone()),
        SqlParam::Text(payload.id.clone()),
    ];
    assert(params.deep_view() =~= seq![
        CellView::Text(payload@.label),
        CellView::Text(payload@.color),
        CellView::Text(payload@.id),
    ]);
    params
}

/// The values that `UPDATE_PRODUCT` is run with.
pub fn product_update_params(payload: &UpdateProductPayload) -> (params: Vec<SqlParam>)
    ensures
        params.deep_view() == seq![
            CellView::Text(payload@.name),
            CellView::Integer(payload@.price),
            CellView::Text(payload@.category_id),
            CellView::Integer(flag_of(payload@.available)),
            CellView::Text(payload@.id),
        ],
{
    let flag: i64 = if payload.available {
        1
    } else {
        0
    };
    let params = vec![
        SqlParam::Text(payload.name.clone()),
        SqlParam::Integer(payload.price),
        SqlParam::Text(payload.category_id.clone()),
        SqlParam::Integer(flag),
        SqlParam::Text(payload.id.clone()),
    ];
    assert(params.deep_view() =~= seq![
        CellView::Text(payload@.name),
        CellView::Integer(payload@.price),
        CellView::Text(payload@.category_id),
        CellView::Integer(flag_of(payload@.available)),
        CellView::Text(payload@.id),
    ]);
    params
}

/// The values that `UPDATE_AVAILABLE` is run with.
pub fn availability_params(flag: i64, id: &String) -> (params: Vec<SqlParam>)
    ensures
        params.deep_view() == seq![CellView::Integer(flag), CellView::Text(id@)],
{
    let params = vec![SqlParam::Integer(flag), SqlParam::Text(id.clone())];
    assert(params.deep_view() =~= seq![CellView::Integer(flag), CellView::Text(id@)]);
    params
}

/// Lists the categories, in the order in which the store yields them: by
/// label. A failure is that of the query or that of reading one of its rows.
pub fn list_categories_inner(db: &DbState) -> (r: Result<Vec<Category>, String>)
    ensures
        r matches Err(message) ==> is_query_error(message@) || is_row_mapping_error(message@),
{
    match query_all(&db.conn, SELECT_CATEGORIES, &Vec::new()) {
        Ok(rows) => read_rows::<Category>(&rows),
        Err(f) => Err(read_failure(&f)),
    }
}

/// Creates a category under the identifier that the caller chose. The store
/// refuses an identifier that is taken; every refusal is an insert error.
/// On success the category is returned as it was asked for.
pub fn create_category_inner(db: &mut DbState, payload: CreateCategoryPayload) -> (r: Result<
    Category,
    String,
>)
    ensures
        match r {
            Ok(category) => category@ == payload@,
            Err(message) => starts_with(message@, "Insert error: "@),
        },
        final(db).db_path == old(db).db_path,
{
    let params = category_params(&payload.id, &payload.label, &payload.color);
    match execute(&db.conn, INSERT_CATEGORY, &params) {
        Ok(_) => Ok(Category { id: payload.id, label: payload.label, color: payload.color }),
        Err(e) => Err(failure("Insert error: ", &e)),
    }
}

/// What an update of a category reports once the store has said how many
/// rows it changed: none means that there is no such category.
pub fn category_update_outcome(changed: usize, payload: UpdateCategoryPayload) -> (r: Result<
    Category,
    String,
>)
    ensures
        outcome(r) == if changed == 0 {
            Err::<CategoryView, Seq<char>>(not_found_message("Category"@, payload@.id))
        } else {
            Ok(payload@)
        },
{
    if changed == 0 {
        Err(not_found("Category", &payload.id))
    } else {
        Ok(Category { id: payload.id, label: payload.label, color: payload.color })
    }
}

/// Gives a category a new label and color. Where the store knows no
/// category of that identifier, that is reported; on success the category
/// is returned as it now is.
pub fn update_category_inner(db: &mut DbState, payload: UpdateCategoryPayload) -> (r: Result<
    Category,
    String,
>)
    ensures
        match r {
            Ok(category) => category@ == payload@,
            Err(message) => message@ == not_found_message("Category"@, payload@.id) || starts_with(
                message@,
                "Update error: "@,
            ),
        },
        final(db).db_path == old(db).db_path,
{
    let params = category_update_params(&payload);
    match execute(&db.conn, UPDATE_CATEGORY, &params) {
        Ok(changed) => category_update_outcome(changed, payload),
        Err(e) => Err(failure("Update error: ", &e)),
    }
}

/// Lists the products, in the order in which the store yields them: by
/// name. A failure is that of the query or that of reading one of its rows.
pub fn list_products_inner(db: &DbState) -> (r: Result<Vec<Product>, String>)
    ensures
        r matches Err(message) ==> is_query_error(message@) || is_row_mapping_error(message@),
{
    match query_all(&db.conn, SELECT_PRODUCTS, &Vec::new()) {
        Ok(rows) => read_rows::<Product>(&rows),
        Err(f) => Err(read_failure(&f)),
    }
}

/// The product that a request asks for, under the identifier `id`:
/// available from the start.
pub open spec fn created_product(id: Seq<char>, request: NewProductView) -> ProductView {
    ProductView {
        id,
        name: request.name,
        price: request.price,
        category_id: request.category_id,
        available: true,
    }
}

/// What is stored for a created product is read back as that product:
/// with the name, price and category asked for, and available.
pub proof fn lemma_created_product_reads_back(id: Seq<char>, request: NewProductView)
    ensures
        Product::of_row(product_row(created_product(id, request))) == Ok::<ProductView, Seq<char>>(
            created_product(id, request),
        ),
        created_product(id, request).available,
{
}

/// A created product is then listed. Whatever else the store yields: where
/// the rows of products hold the row that was written for a created
/// product, the listing that is read from them holds that product at the
/// same place, available and with the name, price and category asked for.
pub proof fn lemma_created_product_is_listed(
    rows: Seq<Seq<CellView>>,
    listing: Seq<ProductView>,
    id: Seq<char>,
    request: NewProductView,
    at: int,
)
    requires
        listing.len() == rows.len(),
        forall|k: int|
            0 <= k < rows.len() ==> Product::of_row(#[trigger] rows[k]) == Ok::<
                ProductView,
                Seq<char>,
            >(listing[k]),
        0 <= at < rows.len(),
        rows[at] == product_row(created_product(id, request)),
    ensures
        listing[at] == created_product(id, request),
        listing[at].available,
{
    lemma_created_product_reads_back(id, request);
}

/// The product that a creation asks for, under the identifier drawn for it:
/// available from the start.
pub fn new_product(id: String, payload: CreateProductPayload) -> (p: Product)
    ensures
        p@ == created_product(id@, payload@),
{
    Product {
        id,
        name: payload.name,
        price: payload.price,
        category_id: payload.category_id,
        available: true,
    }
}

/// Creates a product under a fresh identifier. On success the product is
/// returned with the name, price and category asked for, and available.
/// Every refusal of the store, such as a category that does not exist, is an
/// insert error.
pub fn create_product_inner(db: &mut DbState, payload: CreateProductPayload) -> (r: Result<
    Product,
    String,
>)
    ensures
        match r {
            Ok(product) => product@ == created_product(product@.id, payload@),
            Err(message) => starts_with(message@, "Insert error: "@),
        },
        final(db).db_path == old(db).db_path,
{
    let product = new_product(new_id(), payload);
    let params = product_params(&product);
    match execute(&db.conn, INSERT_PRODUCT, &params) {
        Ok(_) => Ok(product),
        Err(e) => Err(failure("Insert error: ", &e)),
    }
}

/// What an update of a product reports once the store has said how many
/// rows it changed: none means that there is no such product.
pub fn product_update_outcome(changed: usize, payload: UpdateProductPayload) -> (r: Result<
    Product,
    String,
>)
    ensures
        outcome(r) == if changed == 0 {
            Err::<ProductView, Seq<char>>(not_found_message("Product"@, payload@.id))
        } else {
            Ok(payload@)
        },
{
    if changed == 0 {
        Err(not_found("Product", &payload.id))
    } else {
        Ok(
            Product {
                id: payload.id,
                name: payload.name,
                price: payload.price,
                category_id: payload.category_id,
                available: payload.available,
            },
        )
    }
}

/// Replaces name, price, category and availability of a product. Where the
/// store knows no product of that identifier, that is reported; on success
/// the product is returned as it now is.
pub fn update_product_inner(db: &mut DbState, payload: UpdateProductPayload) -> (r: Result<
    Product,
    String,
>)
    ensures
        match r {
            Ok(product) => product@ == payload@,
            Err(message) => message@ == not_found_message("Product"@, payload@.id) || starts_with(
                message@,
                "Update error: "@,
            ),
        },
        final(db).db_path == old(db).db_path,
{
    let params = product_update_params(&payload);
    match execute(&db.conn, UPDATE_PRODUCT, &params) {
        Ok(changed) => product_update_outcome(changed, payload),
        Err(e) => Err(failure("Update error: ", &e)),
    }
}

/// The number to store for the opposite of what `flag` means.
pub open spec fn toggled_flag(flag: i64) -> i64 {
    flag_of(!flag_is_set(flag))
}

/// The number stored for the opposite availability.
pub fn toggled(current: i64) -> (next: i64)
    ensures
        next == toggled_flag(current),
{
    if current != 0 {
        0
    } else {
        1
    }
}

/// What a toggle does with the flag that the store holds: the flag to
/// store in its place, and the availability to report, which is the one
/// that the new flag stands for.
pub fn toggle_plan(current: i64) -> (plan: (i64, bool))
    ensures
        plan.0 == toggled_flag(current),
        plan.1 == flag_is_set(plan.0),
        plan.1 == !flag_is_set(current),
{
    let next = toggled(current);
    (next, next != 0)
}

/// Toggling turns availability into its opposite.
pub proof fn lemma_toggle_flips(flag: i64)
    ensures
        flag_is_set(toggled_flag(flag)) == !flag_is_set(flag),
{
}

/// Toggling twice gives back the availability there was, whatever number
/// stood for it: where the second toggle reads the flag that the first one
/// wrote, it writes and shows the availability from before the first.
pub proof fn lemma_toggle_twice(flag: i64)
    ensures
        flag_is_set(toggled_flag(toggled_flag(flag))) == flag_is_set(flag),
        flag_is_set(toggled_flag(flag)) != flag_is_set(flag),
{
}

/// How the message begins when the availability of a product cannot be
/// read, most often because there is no such product.
pub open spec fn missing_product_context(id: Seq<char>) -> Seq<char> {
    "Product not found ("@ + id + "): "@
}

fn missing_product(id: &String, detail: &String) -> (s: String)
    ensures
        s@ == missing_product_context(id@) + detail@,
        starts_with(s@, missing_product_context(id@)),
{
    let context = join("Product not found (", id.as_str());
    let context = join(context.as_str(), "): ");
    proof {
        lemma_concat_starts_with(context@, detail@);
    }
    join(context.as_str(), detail.as_str())
}

/// Flips the availability of a product and returns the new value. The
/// stored value is read, its opposite is written. Where it cannot be read,
/// as when there is no such product, the message names the product.
pub fn toggle_product_availability_inner(db: &mut DbState, product_id: String) -> (r: Result<
    bool,
    String,
>)
    ensures
        r matches Err(message) ==> starts_with(message@, missing_product_context(product_id@))
            || starts_with(message@, "Update error: "@),
        final(db).db_path == old(db).db_path,
{
    let row = match query_row(&db.conn, SELECT_AVAILABLE, &key_params(&product_id)) {
        Ok(row) => row,
        Err(e) => {
            let detail = describe(&e);
            return Err(missing_product(&product_id, &detail));
        },
    };
    let current = match read_integer(&row, 0) {
        Ok(current) => current,
        Err(fault) => {
            return Err(missing_product(&product_id, &fault));
        },
    };
    let (next, shown) = toggle_plan(current);
    match execute(&db.conn, UPDATE_AVAILABLE, &availability_params(next, &product_id)) {
        Ok(_) => Ok(shown),
        Err(e) => Err(failure("Update error: ", &e)),
    }
}

/// Whether dependents forbid a removal: they do as soon as there is one,
/// and the message says how many there are.
pub fn removal_guard(kind: &str, id: &String, count: i64, dependents: &str) -> (r: Result<
    (),
    String,
>)
    ensures
        outcome(r) == if count > 0 {
            Err::<(), Seq<char>>(conflict_message(kind@, id@, count, dependents@))
        } else {
            Ok(())
        },
{
    if count > 0 {
        Err(conflict(kind, id, count, dependents))
    } else {
        Ok(())
    }
}

/// What a removal reports once the store has said how many rows it
/// deleted: none means that there was nothing of that identifier.
pub fn removal_outcome(kind: &str, id: &String, deleted: usize) -> (r: Result<(), String>)
    ensures
        outcome(r) == if deleted == 0 {
            Err::<(), Seq<char>>(not_found_message(kind@, id@))
        } else {
            Ok(())
        },
{
    if deleted == 0 {
        Err(not_found(kind, id))
    } else {
        Ok(())
    }
}

/// What can go wrong when something is removed: it has dependents, it is
/// not there, or the store failed while counting or deleting.
pub open spec fn is_removal_error(
    message: Seq<char>,
    kind: Seq<char>,
    title: Seq<char>,
    id: Seq<char>,
    dependents: Seq<char>,
) -> bool {
    ||| exists|count: i64| count > 0 && message == #[trigger] conflict_message(
        kind,
        id,
        count,
        dependents,
    )
    ||| message == not_found_message(title, id)
    ||| is_query_error(message)
    ||| starts_with(message, "Delete error: "@)
}

/// Counts what refers to `id`, and deletes `id` only where nothing does.
fn remove(
    db: &mut DbState,
    count_sql: &str,
    delete_sql: &str,
    kind: &str,
    title: &str,
    id: String,
    dependents: &str,
) -> (r: Result<(), String>)
    ensures
        r matches Err(message) ==> is_removal_error(
            message@,
            kind@,
            title@,
            id@,
            dependents@,
        ),
        final(db).db_path == old(db).db_path,
{
    let key = key_params(&id);
    let row = match query_row(&db.conn, count_sql, &key) {
        Ok(row) => row,
        Err(e) => {
            return Err(failure("Query error: ", &e));
        },
    };
    let count = match read_integer(&row, 0) {
        Ok(count) => count,
        Err(fault) => {
            return Err(query_error(&fault));
        },
    };
    match removal_guard(kind, &id, count, dependents) {
        Ok(()) => {},
        Err(message) => {
            return Err(message);
        },
    }
    match execute(&db.conn, delete_sql, &key) {
        Ok(deleted) => removal_outcome(title, &id, deleted),
        Err(e) => Err(failure("Delete error: ", &e)),
    }
}

/// Removes a product that no order line refers to. One that lines refer to
/// stays, and the message says how many do.
pub fn delete_product_inner(db: &mut DbState, product_id: String) -> (r: Result<(), String>)
    ensures
        r matches Err(message) ==> is_removal_error(
            message@,
            "product"@,
            "Product"@,
            product_id@,
            "order item(s)"@,
        ),
        final(db).db_path == old(db).db_path,
{
    remove(
        db,
        COUNT_ITEMS_OF_PRODUCT,
        DELETE_PRODUCT,
        "product",
        "Product",
        product_id,
        "order item(s)",
    )
}

/// Removes a category that no product belongs to. One that products belong
/// to stays, and the message says how many do.
pub fn delete_category_inner(db: &mut DbState, category_id: String) -> (r: Result<(), String>)
    ensures
        r matches Err(message) ==> is_removal_error(
            message@,
            "category"@,
            "Category"@,
            category_id@,
            "product(s)"@,
        ),
        final(db).db_path == old(db).db_path,
{
    remove(
        db,
        COUNT_PRODUCTS_OF_CATEGORY,
        DELETE_CATEGORY,
        "category",
        "Category",
        category_id,
        "product(s)",
    )
}

} // verus!
