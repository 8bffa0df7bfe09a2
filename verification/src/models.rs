//! Data transfer types: what callers hand in and what operations hand back.
//!
//! Every type has a view in which texts are sequences of characters and
//! lists are sequences of views. Contracts are stated over these views.

use vstd::prelude::*;
use vstd::string::StringExecFns;

verus! {

/// The view of a fallible result: the view of the value, or the text of the
/// error message.
pub open spec fn outcome<T: View>(r: Result<T, String>) -> Result<T::V, Seq<char>> {
    match r {
        Ok(value) => Ok(value@),
        Err(message) => Err(message@),
    }
}

/// Version and platform of the hosting application.
#[derive(Debug, Clone)]
pub struct AppVersion {
    pub version: String,
    pub os: String,
    pub arch: String,
}

/// The view of an `AppVersion`.
pub struct AppVersionView {
    pub version: Seq<char>,
    pub os: Seq<char>,
    pub arch: Seq<char>,
}

impl View for AppVersion {
    type V = AppVersionView;

    open spec fn view(&self) -> AppVersionView {
        AppVersionView { version: self.version@, os: self.os@, arch: self.arch@ }
    }
}

/// The accepted payment methods.
#[derive(Debug, Clone, Copy, PartialEq, Eq, Structural)]
pub enum PaymentMethod {
    Cash,
    Card,
}

/// The text under which a payment method is stored.
pub open spec fn method_text(m: PaymentMethod) -> Seq<char> {
    match m {
        PaymentMethod::Cash => "cash"@,
        PaymentMethod::Card => "card"@,
    }
}

/// The payment method that a stored text names, if it names one.
pub open spec fn method_of_text(s: Seq<char>) -> Option<PaymentMethod> {
    if s == "cash"@ {
        Some(PaymentMethod::Cash)
    } else if s == "card"@ {
        Some(PaymentMethod::Card)
    } else {
        None
    }
}

/// The message for a stored text that names no payment method.
pub open spec fn unknown_method_message(s: Seq<char>) -> Seq<char> {
    "Unknown payment method: "@ + s
}

/// The two stored texts differ, so each names one method only.
pub proof fn lemma_method_texts_differ()
    ensures
        "cash"@ != "card"@,
{
    reveal_strlit("cash");
    reveal_strlit("card");
    assert("cash"@[2] != "card"@[2]);
}

/// Parsing the stored text of a method gives that method back.
pub proof fn lemma_method_text_round_trip(m: PaymentMethod)
    ensures
        method_of_text(method_text(m)) == Some(m),
{
    lemma_method_texts_differ();
}

/// A text is accepted only if it is the stored text of the method it names.
pub proof fn lemma_method_of_text_is_exact(s: Seq<char>, m: PaymentMethod)
    ensures
        method_of_text(s) == Some(m) <==> s == method_text(m),
{
    lemma_method_texts_differ();
}

impl PaymentMethod {
    /// Parses the stored text of a payment method. Exactly the two texts
    /// `cash` and `card` are accepted; anything else is reported by name.
    pub fn from_db_str(s: &str) -> (r: Result<PaymentMethod, String>)
        ensures
            match method_of_text(s@) {
                Some(m) => r == Ok::<PaymentMethod, String>(m),
                None => r is Err && r->Err_0@ == unknown_method_message(s@),
            },
    {
        let owned = s.to_owned();
        if owned == String::from_str("cash") {
            Ok(PaymentMethod::Cash)
        } else if owned == String::from_str("card") {
            Ok(PaymentMethod::Card)
        } else {
            Err(String::from_str("Unknown payment method: ").concat(s))
        }
    }

    /// The lower-case text under which the method is stored.
    pub fn as_db_str(&self) -> (r: &'static str)
        ensures
            r@ == method_text(*self),
    {
        match self {
            PaymentMethod::Cash => "cash",
            PaymentMethod::Card => "card",
        }
    }
}

/// A product category with display label and color.
#[derive(Debug, Clone, PartialEq)]
pub struct Category {
    pub id: String,
    pub label: String,
    pub color: String,
}

/// The view of a `Category`, and of a request to create or update one.
pub struct CategoryView {
    pub id: Seq<char>,
    pub label: Seq<char>,
    pub color: Seq<char>,
}

impl View for Category {
    type V = CategoryView;

    open spec fn view(&self) -> CategoryView {
        CategoryView { id: self.id@, label: self.label@, color: self.color@ }
    }
}

impl DeepView for Category {
    type V = CategoryView;

    open spec fn deep_view(&self) -> CategoryView {
        self@
    }
}

/// What a caller sends to create a category. Its view is that of the
/// category asked for.
#[derive(Debug)]
pub struct CreateCategoryPayload {
    pub id: String,
    pub label: String,
    pub color: String,
}

impl View for CreateCategoryPayload {
    type V = CategoryView;

    open spec fn view(&self) -> CategoryView {
        CategoryView { id: self.id@, label: self.label@, color: self.color@ }
    }
}

/// What a caller sends to update a category. Its view is that of the
/// category as it shall be.
#[derive(Debug)]
pub struct UpdateCategoryPayload {
    pub id: String,
    pub label: String,
    pub color: String,
}

impl View for UpdateCategoryPayload {
    type V = CategoryView;

    open spec fn view(&self) -> CategoryView {
        CategoryView { id: self.id@, label: self.label@, color: self.color@ }
    }
}

/// A product in the catalog. Prices are whole cents.
#[derive(Debug, Clone, PartialEq)]
pub struct Product {
    pub id: String,
    pub name: String,
    /// Price in cents.
    pub price: i64,
    /// The category that the product belongs to.
    pub category_id: String,
    /// Whether the product is offered for sale.
    pub available: bool,
}

/// The view of a `Product`, and of a request to update one.
pub struct ProductView {
    pub id: Seq<char>,
    pub name: Seq<char>,
    pub price: i64,
    pub category_id: Seq<char>,
    pub available: bool,
}

impl View for Product {
    type V = ProductView;

    open spec fn view(&self) -> ProductView {
        ProductView {
            id: self.id@,
            name: self.name@,
            price: self.price,
            category_id: self.category_id@,
            available: self.available,
        }
    }
}

impl DeepView for Product {
    type V = ProductView;

    open spec fn deep_view(&self) -> ProductView {
        self@
    }
}

/// What a caller sends to create a product.
#[derive(Debug)]
pub struct CreateProductPayload {
    pub name: String,
    pub price: i64,
    pub category_id: String,
}

/// The view of a `CreateProductPayload`.
pub struct NewProductView {
    pub name: Seq<char>,
    pub price: i64,
    pub category_id: Seq<char>,
}

impl View for CreateProductPayload {
    type V = NewProductView;

    open spec fn view(&self) -> NewProductView {
        NewProductView { name: self.name@, price: self.price, category_id: self.category_id@ }
    }
}

/// What a caller sends to update a product. Its view is that of the product
/// as it shall be.
#[derive(Debug)]
pub struct UpdateProductPayload {
    pub id: String,
    pub name: String,
    pub price: i64,
    pub category_id: String,
    pub available: bool,
}

impl View for UpdateProductPayload {
    type V = ProductView;

    open spec fn view(&self) -> ProductView {
        ProductView {
            id: self.id@,
            name: self.name@,
            price: self.price,
            category_id: self.category_id@,
            available: self.available,
        }
    }
}

/// A completed sale.
#[derive(Debug, Clone, PartialEq)]
pub struct Order {
    pub id: String,
    /// ISO-8601 UTC time at which the order was recorded.
    pub created_at: String,
    /// Total amount in cents.
    pub total: i64,
    pub payment_method: PaymentMethod,
}

/// The view of an `Order`.
pub struct OrderView {
    pub id: Seq<char>,
    pub created_at: Seq<char>,
    pub total: i64,
    pub payment_method: PaymentMethod,
}

impl View for Order {
    type V = OrderView;

    open spec fn view(&self) -> OrderView {
        OrderView {
            id: self.id@,
            created_at: self.created_at@,
            total: self.total,
            payment_method: self.payment_method,
        }
    }
}

impl DeepView for Order {
    type V = OrderView;

    open spec fn deep_view(&self) -> OrderView {
        self@
    }
}

/// One line of an order. Name and unit price are copies taken at the time of
/// sale, so that later changes to the catalog leave the line as it was.
#[derive(Debug, Clone, PartialEq)]
pub struct OrderItem {
    pub id: String,
    pub order_id: String,
    pub product_id: String,
    pub product_name: String,
    /// Unit price in cents at the time of sale.
    pub unit_price: i64,
    pub quantity: i64,
    /// `unit_price * quantity`, in cents.
    pub total: i64,
}

/// The view of an `OrderItem`.
pub struct OrderItemView {
    pub id: Seq<char>,
    pub order_id: Seq<char>,
    pub product_id: Seq<char>,
    pub product_name: Seq<char>,
    pub unit_price: i64,
    pub quantity: i64,
    pub total: i64,
}

impl View for OrderItem {
    type V = OrderItemView;

    open spec fn view(&self) -> OrderItemView {
        OrderItemView {
            id: self.id@,
            order_id: self.order_id@,
            product_id: self.product_id@,
            product_name: self.product_name@,
            unit_price: self.unit_price,
            quantity: self.quantity,
            total: self.total,
        }
    }
}

impl DeepView for OrderItem {
    type V = OrderItemView;

    open spec fn deep_view(&self) -> OrderItemView {
        self@
    }
}

/// An order together with its lines.
#[derive(Debug, Clone, PartialEq)]
pub struct OrderWithItems {
    pub order: Order,
    pub items: Vec<OrderItem>,
}

/// The view of an `OrderWithItems`.
pub struct OrderWithItemsView {
    pub order: OrderView,
    pub items: Seq<OrderItemView>,
}

impl View for OrderWithItems {
    type V = OrderWithItemsView;

    open spec fn view(&self) -> OrderWithItemsView {
        OrderWithItemsView { order: self.order@, items: self.items.deep_view() }
    }
}

impl DeepView for OrderWithItems {
    type V = OrderWithItemsView;

    open spec fn deep_view(&self) -> OrderWithItemsView {
        self@
    }
}

/// One line of a new order, as the caller states it.
#[derive(Debug)]
pub struct CreateOrderItemPayload {
    pub product_id: String,
    pub product_name: String,
    pub unit_price: i64,
    pub quantity: i64,
}

/// The view of a `CreateOrderItemPayload`.
pub struct NewLineView {
    pub product_id: Seq<char>,
    pub product_name: Seq<char>,
    pub unit_price: i64,
    pub quantity: i64,
}

impl View for CreateOrderItemPayload {
    type V = NewLineView;

    open spec fn view(&self) -> NewLineView {
        NewLineView {
            product_id: self.product_id@,
            product_name: self.product_name@,
            unit_price: self.unit_price,
            quantity: self.quantity,
        }
    }
}

impl DeepView for CreateOrderItemPayload {
    type V = NewLineView;

    open spec fn deep_view(&self) -> NewLineView {
        self@
    }
}

/// What a caller sends to record an order.
#[derive(Debug)]
pub struct CreateOrderPayload {
    pub items: Vec<CreateOrderItemPayload>,
    pub payment_method: PaymentMethod,
}

/// The view of a `CreateOrderPayload`.
pub struct NewOrderView {
    pub items: Seq<NewLineView>,
    pub payment_method: PaymentMethod,
}

impl View for CreateOrderPayload {
    type V = NewOrderView;

    open spec fn view(&self) -> NewOrderView {
        NewOrderView { items: self.items.deep_view(), payment_method: self.payment_method }
    }
}

/// Sales of one product over all orders.
#[derive(Debug, Clone, PartialEq)]
pub struct ProductSalesSummary {
    pub product_id: String,
    pub product_name: String,
    pub total_quantity: i64,
    pub total_revenue: i64,
}

/// The view of a `ProductSalesSummary`.
pub struct ProductSalesView {
    pub product_id: Seq<char>,
    pub product_name: Seq<char>,
    pub total_quantity: i64,
    pub total_revenue: i64,
}

impl View for ProductSalesSummary {
    type V = ProductSalesView;

    open spec fn view(&self) -> ProductSalesView {
        ProductSalesView {
            product_id: self.product_id@,
            product_name: self.product_name@,
            total_quantity: self.total_quantity,
            total_revenue: self.total_revenue,
        }
    }
}

impl DeepView for ProductSalesSummary {
    type V = ProductSalesView;

    open spec fn deep_view(&self) -> ProductSalesView {
        self@
    }
}

/// Revenue and number of orders paid by one method.
#[derive(Debug, Clone, Copy, PartialEq, Eq, Structural)]
pub struct PaymentMethodBreakdown {
    pub payment_method: PaymentMethod,
    pub total_revenue: i64,
    pub transaction_count: i64,
}

impl View for PaymentMethodBreakdown {
    type V = PaymentMethodBreakdown;

    open spec fn view(&self) -> PaymentMethodBreakdown {
        *self
    }
}

impl DeepView for PaymentMethodBreakdown {
    type V = PaymentMethodBreakdown;

    open spec fn deep_view(&self) -> PaymentMethodBreakdown {
        *self
    }
}

/// The sales report: grand totals, sales by product, revenue by payment
/// method.
#[derive(Debug, Clone, PartialEq)]
pub struct DashboardSummary {
    pub total_revenue: i64,
    pub total_transactions: i64,
    pub per_product: Vec<ProductSalesSummary>,
    pub per_payment_method: Vec<PaymentMethodBreakdown>,
}

/// The view of a `DashboardSummary`.
pub struct DashboardView {
    pub total_revenue: i64,
    pub total_transactions: i64,
    pub per_product: Seq<ProductSalesView>,
    pub per_payment_method: Seq<PaymentMethodBreakdown>,
}

impl View for DashboardSummary {
    type V = DashboardView;

    open spec fn view(&self) -> DashboardView {
        DashboardView {
            total_revenue: self.total_revenue,
            total_transactions: self.total_transactions,
            per_product: self.per_product.deep_view(),
            per_payment_method: self.per_payment_method.deep_view(),
        }
    }
}

} // verus!
