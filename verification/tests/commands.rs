use pos_store::catalog::{
    create_category_inner, create_product_inner, delete_category_inner, delete_product_inner,
    list_categories_inner, list_products_inner, toggle_product_availability_inner,
    update_product_inner,
};
use pos_store::dashboard::get_dashboard_summary_inner;
use pos_store::db::{init_db_in_memory, DbState};
use pos_store::models::{
    CreateCategoryPayload, CreateOrderItemPayload, CreateOrderPayload, CreateProductPayload,
    PaymentMethod, Product, UpdateProductPayload,
};
use pos_store::orders::{create_order_inner, list_orders_inner};

fn open() -> DbState {
    init_db_in_memory().expect("Failed to open in-memory database")
}

fn make_product(db: &mut DbState, name: &str, price: i64, category_id: &str) -> Product {
    create_product_inner(
        db,
        CreateProductPayload {
            name: name.to_string(),
            price,
            category_id: category_id.to_string(),
        },
    )
    .expect("create_product_inner failed")
}

#[test]
fn list_products_returns_defaults() {
    let db = open();
    let products = list_products_inner(&db).unwrap();
    assert_eq!(products.len(), 20);
}

#[test]
fn create_and_list_products() {
    let mut db = open();
    let created = make_product(&mut db, "Cola", 150, "boisson-sans-alcool");
    assert_eq!(created.name, "Cola");
    assert_eq!(created.price, 150);
    assert_eq!(created.category_id, "boisson-sans-alcool");
    assert!(created.available);

    let products = list_products_inner(&db).unwrap();
    assert_eq!(products.len(), 21);
    let cola = products.iter().find(|p| p.id == created.id).expect("Cola should be in the list");
    assert_eq!(cola.name, "Cola");
}

#[test]
fn update_product_changes_fields() {
    let mut db = open();
    let p = make_product(&mut db, "Chips", 200, "snack");

    let updated = update_product_inner(
        &mut db,
        UpdateProductPayload {
            id: p.id.clone(),
            name: "Crisps".to_string(),
            price: 250,
            category_id: "snack".to_string(),
            available: false,
        },
    )
    .unwrap();

    assert_eq!(updated.id, p.id);
    assert_eq!(updated.name, "Crisps");
    assert_eq!(updated.price, 250);
    assert!(!updated.available);

    let products = list_products_inner(&db).unwrap();
    let crisps =
        products.iter().find(|p| p.id == updated.id).expect("Crisps should be in the list");
    assert_eq!(crisps.name, "Crisps");
    assert!(!crisps.available);
}

#[test]
fn update_product_not_found() {
    let mut db = open();
    let result = update_product_inner(
        &mut db,
        UpdateProductPayload {
            id: "nonexistent".to_string(),
            name: "X".to_string(),
            price: 100,
            category_id: "snack".to_string(),
            available: true,
        },
    );
    assert!(result.is_err());
    assert!(result.unwrap_err().contains("Product not found"));
}

#[test]
fn toggle_availability() {
    let mut db = open();
    let p = make_product(&mut db, "Water", 100, "boisson-sans-alcool");
    assert!(p.available);

    let new_state = toggle_product_availability_inner(&mut db, p.id.clone()).unwrap();
    assert!(!new_state);

    let new_state = toggle_product_availability_inner(&mut db, p.id.clone()).unwrap();
    assert!(new_state);

    let new_state = toggle_product_availability_inner(&mut db, p.id).unwrap();
    assert!(!new_state);
}

#[test]
fn create_order_success() {
    let mut db = open();
    let p = make_product(&mut db, "Candy", 50, "sucreries");

    let order = create_order_inner(
        &mut db,
        CreateOrderPayload {
            items: vec![CreateOrderItemPayload {
                product_id: p.id.clone(),
                product_name: "Candy".to_string(),
                unit_price: 50,
                quantity: 3,
            }],
            payment_method: PaymentMethod::Cash,
        },
    )
    .unwrap();

    assert_eq!(order.order.total, 150);
    assert_eq!(order.order.payment_method, PaymentMethod::Cash);
    assert_eq!(order.items.len(), 1);
    assert_eq!(order.items[0].product_id, p.id);
    assert_eq!(order.items[0].quantity, 3);
    assert_eq!(order.items[0].total, 150);

    let orders = list_orders_inner(&db).unwrap();
    assert_eq!(orders.len(), 1);
    assert_eq!(orders[0].order.total, 150);
    assert_eq!(orders[0].items.len(), 1);
}

#[test]
fn create_order_empty_items_fails() {
    let mut db = open();
    let result = create_order_inner(
        &mut db,
        CreateOrderPayload { items: vec![], payment_method: PaymentMethod::Card },
    );
    assert!(result.is_err());
    assert!(result.unwrap_err().contains("no items"));
}

#[test]
fn dashboard_summary_reflects_orders() {
    let mut db = open();
    let soda = make_product(&mut db, "Soda", 200, "boisson-sans-alcool");
    let bar = make_product(&mut db, "Bar", 100, "snack");

    create_order_inner(
        &mut db,
        CreateOrderPayload {
            items: vec![CreateOrderItemPayload {
                product_id: soda.id.clone(),
                product_name: "Soda".to_string(),
                unit_price: 200,
                quantity: 2,
            }],
            payment_method: PaymentMethod::Cash,
        },
    )
    .unwrap();

    create_order_inner(
        &mut db,
        CreateOrderPayload {
            items: vec![
                CreateOrderItemPayload {
                    product_id: soda.id.clone(),
                    product_name: "Soda".to_string(),
                    unit_price: 200,
                    quantity: 1,
                },
                CreateOrderItemPayload {
                    product_id: bar.id.clone(),
                    product_name: "Bar".to_string(),
                    unit_price: 100,
                    quantity: 3,
                },
            ],
            payment_method: PaymentMethod::Card,
        },
    )
    .unwrap();

    let summary = get_dashboard_summary_inner(&db).unwrap();
    assert_eq!(summary.total_revenue, 900);
    assert_eq!(summary.total_transactions, 2);

    assert_eq!(summary.per_product.len(), 2);
    assert_eq!(summary.per_product[0].product_name, "Soda");
    assert_eq!(summary.per_product[0].total_quantity, 3);
    assert_eq!(summary.per_product[0].total_revenue, 600);
    assert_eq!(summary.per_product[1].product_name, "Bar");
    assert_eq!(summary.per_product[1].total_quantity, 3);
    assert_eq!(summary.per_product[1].total_revenue, 300);

    assert_eq!(summary.per_payment_method.len(), 2);
    assert_eq!(summary.per_payment_method[0].payment_method, PaymentMethod::Card);
    assert_eq!(summary.per_payment_method[0].total_revenue, 500);
    assert_eq!(summary.per_payment_method[0].transaction_count, 1);
    assert_eq!(summary.per_payment_method[1].payment_method, PaymentMethod::Cash);
    assert_eq!(summary.per_payment_method[1].total_revenue, 400);
    assert_eq!(summary.per_payment_method[1].transaction_count, 1);
}

#[test]
fn delete_product_success() {
    let mut db = open();
    let p = make_product(&mut db, "Temp Item", 100, "snack");

    let before = list_products_inner(&db).unwrap().len();
    delete_product_inner(&mut db, p.id.clone()).unwrap();
    let after = list_products_inner(&db).unwrap().len();

    assert_eq!(after, before - 1);
    assert!(list_products_inner(&db).unwrap().iter().all(|prod| prod.id != p.id));
}

#[test]
fn delete_product_not_found() {
    let mut db = open();
    let result = delete_product_inner(&mut db, "nonexistent".to_string());
    assert!(result.is_err());
    assert!(result.unwrap_err().contains("Product not found"));
}

#[test]
fn delete_product_with_order_items_fails() {
    let mut db = open();
    let p = make_product(&mut db, "Ordered Item", 200, "snack");

    create_order_inner(
        &mut db,
        CreateOrderPayload {
            items: vec![CreateOrderItemPayload {
                product_id: p.id.clone(),
                product_name: "Ordered Item".to_string(),
                unit_price: 200,
                quantity: 1,
            }],
            payment_method: PaymentMethod::Cash,
        },
    )
    .unwrap();

    let result = delete_product_inner(&mut db, p.id);
    assert!(result.is_err());
    assert!(result.unwrap_err().contains("referenced by"));
}

#[test]
fn delete_category_success() {
    let mut db = open();

    create_category_inner(
        &mut db,
        CreateCategoryPayload {
            id: "test-cat".to_string(),
            label: "Test Cat".to_string(),
            color: "#ff0000".to_string(),
        },
    )
    .unwrap();

    let before = list_categories_inner(&db).unwrap().len();
    delete_category_inner(&mut db, "test-cat".to_string()).unwrap();
    let after = list_categories_inner(&db).unwrap().len();

    assert_eq!(after, before - 1);
}

#[test]
fn delete_category_not_found() {
    let mut db = open();
    let result = delete_category_inner(&mut db, "nonexistent".to_string());
    assert!(result.is_err());
    assert!(result.unwrap_err().contains("Category not found"));
}

#[test]
fn delete_category_with_products_fails() {
    let mut db = open();

    let result = delete_category_inner(&mut db, "snack".to_string());
    assert!(result.is_err());
    assert!(result.unwrap_err().contains("referenced by"));
}
