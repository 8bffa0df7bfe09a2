use pos_store::catalog::{
    create_category_inner, create_product_inner, delete_category_inner, delete_product_inner,
    list_categories_inner, list_products_inner, toggle_product_availability_inner,
    update_category_inner, update_product_inner,
};
use pos_store::dashboard::get_dashboard_summary_inner;
use pos_store::db::{
    create_default_data, create_tables, init_db_at, init_db_in_memory, init_db_with,
    reset_database_inner, DbState,
};
use pos_store::models::{
    Category, CreateCategoryPayload, CreateOrderItemPayload, CreateOrderPayload,
    CreateProductPayload, PaymentMethod, UpdateCategoryPayload, UpdateProductPayload,
};
use pos_store::orders::{create_order_inner, list_orders_inner};

fn open() -> DbState {
    init_db_in_memory().expect("the store opens in memory")
}

fn sale(lines: &[(&str, &str, i64, i64)], method: PaymentMethod) -> CreateOrderPayload {
    CreateOrderPayload {
        items: lines
            .iter()
            .map(|(product_id, product_name, unit_price, quantity)| CreateOrderItemPayload {
                product_id: product_id.to_string(),
                product_name: product_name.to_string(),
                unit_price: *unit_price,
                quantity: *quantity,
            })
            .collect(),
        payment_method: method,
    }
}

#[test]
fn new_store_has_defaults_by_label_and_name() {
    let db = open();
    assert_eq!(db.db_path, ":memory:");
    let categories = list_categories_inner(&db).unwrap();
    let labels: Vec<&str> = categories.iter().map(|c| c.label.as_str()).collect();
    assert_eq!(labels, vec!["Alcool", "Autre", "Boisson sans alcool", "Snack", "Sucreries"]);
    let products = list_products_inner(&db).unwrap();
    assert_eq!(products.len(), 20);
    assert!(products.windows(2).all(|w| w[0].name <= w[1].name));
    assert!(products.iter().all(|p| p.available));
    assert!(list_orders_inner(&db).unwrap().is_empty());
}

#[test]
fn defaults_are_inserted_once() {
    let db = open();
    create_tables(&db.conn).unwrap();
    create_default_data(&db.conn).unwrap();
    assert_eq!(list_categories_inner(&db).unwrap().len(), 5);
    assert_eq!(list_products_inner(&db).unwrap().len(), 20);
}

#[test]
fn store_opens_at_a_path() {
    let db = init_db_at(":memory:").unwrap();
    assert_eq!(db.db_path, ":memory:");
    assert_eq!(list_products_inner(&db).unwrap().len(), 20);
    let failed = init_db_at("/no-such-directory/for/this/pos.db");
    match failed {
        Ok(_) => panic!("a file in a missing directory was opened"),
        Err(message) => assert!(message
            .starts_with("Failed to open database at /no-such-directory/for/this/pos.db: ")),
    }
}

#[test]
fn store_is_made_of_an_open_connection() {
    let conn = rusqlite::Connection::open_in_memory().unwrap();
    let db = init_db_with(conn, "somewhere/pos.db".to_string()).unwrap();
    assert_eq!(db.db_path, "somewhere/pos.db");
    assert_eq!(list_categories_inner(&db).unwrap().len(), 5);
    assert_eq!(list_products_inner(&db).unwrap().len(), 20);
    let conn = rusqlite::Connection::open_in_memory().unwrap();
    conn.execute_batch("CREATE VIEW order_items AS SELECT 1 AS order_id;").unwrap();
    let message = match init_db_with(conn, "x".to_string()) {
        Ok(_) => panic!("a store was made over a view"),
        Err(message) => message,
    };
    assert!(message.starts_with("Failed to create tables: "), "{}", message);
}

#[test]
fn created_product_is_listed_as_available() {
    let mut db = open();
    let created = create_product_inner(
        &mut db,
        CreateProductPayload {
            name: "Cola".to_string(),
            price: 150,
            category_id: "boisson-sans-alcool".to_string(),
        },
    )
    .unwrap();
    let listed = list_products_inner(&db).unwrap();
    let found: Vec<_> = listed.iter().filter(|p| p.id == created.id).collect();
    assert_eq!(found.len(), 1);
    assert_eq!(*found[0], created);
    assert!(found[0].available);
    assert_eq!(found[0].price, 150);
}

#[test]
fn created_products_get_distinct_identifiers() {
    let mut db = open();
    let payload = || CreateProductPayload {
        name: "Twin".to_string(),
        price: 100,
        category_id: "snack".to_string(),
    };
    let a = create_product_inner(&mut db, payload()).unwrap();
    let b = create_product_inner(&mut db, payload()).unwrap();
    assert_ne!(a.id, b.id);
    assert_eq!(a.id.len(), 36);
}

#[test]
fn product_needs_an_existing_category() {
    let mut db = open();
    let result = create_product_inner(
        &mut db,
        CreateProductPayload {
            name: "Orphan".to_string(),
            price: 100,
            category_id: "no-such-category".to_string(),
        },
    );
    assert!(result.unwrap_err().starts_with("Insert error: "));
    assert_eq!(list_products_inner(&db).unwrap().len(), 20);
}

#[test]
fn category_identifier_is_taken_once() {
    let mut db = open();
    let payload = || CreateCategoryPayload {
        id: "glaces".to_string(),
        label: "Glaces".to_string(),
        color: "#00ffff".to_string(),
    };
    let created = create_category_inner(&mut db, payload()).unwrap();
    assert_eq!(
        created,
        Category { id: "glaces".to_string(), label: "Glaces".to_string(), color: "#00ffff".to_string() }
    );
    let again = create_category_inner(&mut db, payload());
    assert!(again.unwrap_err().starts_with("Insert error: "));
    assert_eq!(list_categories_inner(&db).unwrap().len(), 6);
}

#[test]
fn update_category_changes_label_and_color() {
    let mut db = open();
    let updated = update_category_inner(
        &mut db,
        UpdateCategoryPayload {
            id: "autre".to_string(),
            label: "Divers".to_string(),
            color: "#111111".to_string(),
        },
    )
    .unwrap();
    assert_eq!(updated.label, "Divers");
    let listed = list_categories_inner(&db).unwrap();
    let found = listed.iter().find(|c| c.id == "autre").unwrap();
    assert_eq!(*found, updated);
}

#[test]
fn update_category_not_found() {
    let mut db = open();
    let result = update_category_inner(
        &mut db,
        UpdateCategoryPayload {
            id: "nonexistent".to_string(),
            label: "X".to_string(),
            color: "#000000".to_string(),
        },
    );
    assert_eq!(result, Err("Category not found: nonexistent".to_string()));
    let result = update_product_inner(
        &mut db,
        UpdateProductPayload {
            id: "nonexistent".to_string(),
            name: "X".to_string(),
            price: 100,
            category_id: "snack".to_string(),
            available: true,
        },
    );
    assert_eq!(result, Err("Product not found: nonexistent".to_string()));
}

#[test]
fn toggling_twice_restores_availability() {
    let mut db = open();
    let before = list_products_inner(&db).unwrap();
    let soda = before.iter().find(|p| p.id == "soda").unwrap();
    assert!(soda.available);
    let once = toggle_product_availability_inner(&mut db, "soda".to_string()).unwrap();
    assert_eq!(once, !soda.available);
    let listed = list_products_inner(&db).unwrap();
    assert!(!listed.iter().find(|p| p.id == "soda").unwrap().available);
    let twice = toggle_product_availability_inner(&mut db, "soda".to_string()).unwrap();
    assert_eq!(twice, soda.available);
    assert_eq!(list_products_inner(&db).unwrap(), before);
}

#[test]
fn toggle_names_the_missing_product() {
    let mut db = open();
    let result = toggle_product_availability_inner(&mut db, "ghost".to_string());
    assert_eq!(result, Err("Product not found (ghost): Query returned no rows".to_string()));
}

#[test]
fn order_of_three_at_fifty_totals_one_hundred_fifty() {
    let mut db = open();
    let payload = sale(&[("bonbon", "Bonbon", 50, 3)], PaymentMethod::Cash);
    let order = create_order_inner(&mut db, payload).unwrap();
    assert_eq!(order.order.total, 150);
    assert_eq!(order.items.len(), 1);
    assert_eq!(order.items[0].total, 150);
    assert_eq!(order.items[0].order_id, order.order.id);
    assert_eq!(order.items[0].unit_price, 50);
    assert_ne!(order.items[0].id, order.order.id);
    assert_eq!(order.order.created_at.len(), 20);
    assert!(order.order.created_at.ends_with('Z'));
    assert_eq!(&order.order.created_at[10..11], "T");
}

#[test]
fn order_with_quantity_not_positive_is_rejected_and_nothing_is_stored() {
    let mut db = open();
    let payload =
        sale(&[("soda", "Soda", 200, 1), ("bonbon", "Bonbon", 100, 0)], PaymentMethod::Card);
    let result = create_order_inner(&mut db, payload);
    assert_eq!(result, Err("Invalid quantity 0 for product bonbon".to_string()));
    let payload = sale(&[("soda", "Soda", 200, -2)], PaymentMethod::Card);
    let result = create_order_inner(&mut db, payload);
    assert_eq!(result, Err("Invalid quantity -2 for product soda".to_string()));
    let payload = sale(&[], PaymentMethod::Card);
    assert_eq!(
        create_order_inner(&mut db, payload),
        Err("Cannot create an order with no items".to_string())
    );
    assert!(list_orders_inner(&db).unwrap().is_empty());
    assert_eq!(get_dashboard_summary_inner(&db).unwrap().total_transactions, 0);
}

#[test]
fn order_is_written_whole_or_not_at_all() {
    let mut db = open();
    let payload = sale(&[("soda", "Soda", 200, 1), ("no-such-product", "Ghost", 100, 1)],
        PaymentMethod::Card,
    );
    let result = create_order_inner(&mut db, payload);
    assert!(result.unwrap_err().starts_with("Insert order item error: "));
    assert!(list_orders_inner(&db).unwrap().is_empty());
    let summary = get_dashboard_summary_inner(&db).unwrap();
    assert_eq!(summary.total_revenue, 0);
    assert_eq!(summary.total_transactions, 0);
    assert!(summary.per_product.is_empty());
    assert!(summary.per_payment_method.is_empty());
    let payload = sale(&[("soda", "Soda", 200, 1)], PaymentMethod::Card);
    create_order_inner(&mut db, payload).unwrap();
    assert_eq!(list_orders_inner(&db).unwrap().len(), 1);
}

#[test]
fn recorded_orders_are_listed_as_recorded() {
    let mut db = open();
    let first = sale(&[("soda", "Soda", 200, 2), ("panini", "Panini", 400, 1), ("soda", "Soda", 150, 1)],
        PaymentMethod::Cash,
    );
    let first = create_order_inner(&mut db, first).unwrap();
    let second = sale(&[("cafe", "Café", 100, 4)], PaymentMethod::Card);
    let second = create_order_inner(&mut db, second).unwrap();
    assert_eq!(first.order.total, 950);
    assert_eq!(second.order.total, 400);

    let listed = list_orders_inner(&db).unwrap();
    assert_eq!(listed.len(), 2);
    for recorded in [&first, &second] {
        let found: Vec<_> = listed.iter().filter(|o| o.order.id == recorded.order.id).collect();
        assert_eq!(found.len(), 1);
        assert_eq!(found[0], recorded);
    }
    assert!(listed[0].order.created_at >= listed[1].order.created_at);
}

#[test]
fn recorded_lines_keep_the_price_of_the_sale() {
    let mut db = open();
    let payload = sale(&[("soda", "Soda d'hier", 175, 2)], PaymentMethod::Cash);
    let order = create_order_inner(&mut db, payload).unwrap();
    update_product_inner(
        &mut db,
        UpdateProductPayload {
            id: "soda".to_string(),
            name: "Soda nouveau".to_string(),
            price: 300,
            category_id: "boisson-sans-alcool".to_string(),
            available: true,
        },
    )
    .unwrap();
    let listed = list_orders_inner(&db).unwrap();
    assert_eq!(listed, vec![order]);
    assert_eq!(listed[0].items[0].product_name, "Soda d'hier");
    assert_eq!(listed[0].items[0].unit_price, 175);
    assert_eq!(listed[0].order.total, 350);
}

#[test]
fn conflict_mentions_the_reference_count() {
    let mut db = open();
    let payload =
        sale(&[("soda", "Soda", 200, 1), ("soda", "Soda", 200, 2)], PaymentMethod::Cash);
    create_order_inner(&mut db, payload).unwrap();
    let payload = sale(&[("soda", "Soda", 200, 1)], PaymentMethod::Card);
    create_order_inner(&mut db, payload).unwrap();
    assert_eq!(
        delete_product_inner(&mut db, "soda".to_string()),
        Err("Cannot delete product 'soda': it is referenced by 3 order item(s)".to_string())
    );
    assert_eq!(
        delete_category_inner(&mut db, "snack".to_string()),
        Err("Cannot delete category 'snack': it is referenced by 3 product(s)".to_string())
    );
    assert_eq!(list_products_inner(&db).unwrap().len(), 20);
    assert_eq!(list_categories_inner(&db).unwrap().len(), 5);
    assert_eq!(delete_product_inner(&mut db, "panini".to_string()), Ok(()));
    assert_eq!(
        delete_category_inner(&mut db, "snack".to_string()),
        Err("Cannot delete category 'snack': it is referenced by 2 product(s)".to_string())
    );
}

#[test]
fn dashboard_of_an_empty_store_is_zero() {
    let db = open();
    let summary = get_dashboard_summary_inner(&db).unwrap();
    assert_eq!(summary.total_revenue, 0);
    assert_eq!(summary.total_transactions, 0);
    assert!(summary.per_product.is_empty());
    assert!(summary.per_payment_method.is_empty());
}

#[test]
fn dashboard_sums_by_product_and_method() {
    let mut db = open();
    let a = sale(&[("soda", "Soda", 200, 2)], PaymentMethod::Cash);
    create_order_inner(&mut db, a).unwrap();
    let b = sale(&[("soda", "Soda", 200, 1), ("bonbon", "Bonbon", 100, 3)], PaymentMethod::Card);
    create_order_inner(&mut db, b).unwrap();
    let summary = get_dashboard_summary_inner(&db).unwrap();
    assert_eq!(summary.total_revenue, 900);
    assert_eq!(summary.total_transactions, 2);
    let per_product: Vec<(&str, i64, i64)> = summary
        .per_product
        .iter()
        .map(|p| (p.product_id.as_str(), p.total_quantity, p.total_revenue))
        .collect();
    assert_eq!(per_product, vec![("soda", 3, 600), ("bonbon", 3, 300)]);
    let per_method: Vec<(PaymentMethod, i64, i64)> = summary
        .per_payment_method
        .iter()
        .map(|m| (m.payment_method, m.total_revenue, m.transaction_count))
        .collect();
    assert_eq!(per_method, vec![(PaymentMethod::Card, 500, 1), (PaymentMethod::Cash, 400, 1)]);
}

#[test]
fn reset_restores_the_defaults() {
    let mut db = open();
    let payload = sale(&[("soda", "Soda", 200, 1)], PaymentMethod::Card);
    create_order_inner(&mut db, payload).unwrap();
    delete_product_inner(&mut db, "panini".to_string()).unwrap();
    create_category_inner(
        &mut db,
        CreateCategoryPayload {
            id: "glaces".to_string(),
            label: "Glaces".to_string(),
            color: "#00ffff".to_string(),
        },
    )
    .unwrap();
    reset_database_inner(&mut db).unwrap();
    assert_eq!(db.db_path, ":memory:");
    assert_eq!(list_categories_inner(&db).unwrap().len(), 5);
    assert_eq!(list_products_inner(&db).unwrap().len(), 20);
    assert!(list_orders_inner(&db).unwrap().is_empty());
}

#[test]
fn failures_of_the_store_are_reported_by_stage() {
    let mut db = open();
    db.conn.execute_batch("DROP TABLE order_items; DROP TABLE orders; DROP TABLE products;").unwrap();
    assert!(list_products_inner(&db).unwrap_err().starts_with("Query error: "));
    assert!(list_orders_inner(&db).unwrap_err().starts_with("Query error: "));
    assert!(get_dashboard_summary_inner(&db).unwrap_err().starts_with("Query error: "));
    assert!(delete_product_inner(&mut db, "soda".to_string())
        .unwrap_err()
        .starts_with("Query error: "));
    assert!(update_product_inner(
        &mut db,
        UpdateProductPayload {
            id: "soda".to_string(),
            name: "Soda".to_string(),
            price: 1,
            category_id: "snack".to_string(),
            available: true
        }
    )
    .unwrap_err()
    .starts_with("Update error: "));
    assert!(toggle_product_availability_inner(&mut db, "soda".to_string())
        .unwrap_err()
        .starts_with("Product not found (soda): "));
    let payload = sale(&[("soda", "Soda", 200, 1)], PaymentMethod::Card);
    assert!(create_order_inner(&mut db, payload).unwrap_err().starts_with("Insert order error: "));
}

#[test]
fn rows_of_another_shape_are_row_mapping_errors() {
    let db = open();
    db.conn
        .execute_batch(
            "DROP TABLE products; CREATE TABLE products (id, name, price, category_id, available); INSERT INTO products VALUES ('a', 'A', 'dear', 'snack', 1);",
        )
        .unwrap();
    assert_eq!(
        list_products_inner(&db),
        Err("Row mapping error: Invalid column type Text at index: 2".to_string())
    );
    db.conn
        .execute_batch(
            "DROP TABLE order_items; DROP TABLE orders; CREATE TABLE orders (id, created_at, total, payment_method); CREATE TABLE order_items (id, order_id, product_id, product_name, unit_price, quantity, total); INSERT INTO orders VALUES ('o', '2024-05-01T10:00:00Z', 100, 'coins');",
        )
        .unwrap();
    assert_eq!(
        list_orders_inner(&db),
        Err("Row mapping error: Conversion error from type Text at index: 3, Unknown payment method: coins".to_string())
    );
    assert_eq!(
        get_dashboard_summary_inner(&db),
        Err("Row mapping error: Conversion error from type Text at index: 0, Unknown payment method: coins".to_string())
    );
}
