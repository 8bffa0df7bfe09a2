//! Reporting: the sales figures that the store adds up.
//!
//! The sums are the store's: three statements ask for them. What is proved
//! here is how their rows are read and which failure is reported.

use crate::cells::{integer_at, read_integer, read_rows, read_text, text_at, Cell, CellView, FromRow};
use crate::db::DbState;
use crate::driver::{query_all, query_row};
use crate::messages::{
    failure, is_query_error, is_row_mapping_error, query_error, query_message, read_failure,
};
use crate::models::{
    outcome, DashboardSummary, DashboardView, PaymentMethodBreakdown, ProductSalesSummary,
    ProductSalesView,
};
use crate::orders::{method_at, read_method};
use vstd::prelude::*;

verus! {

/// Revenue over all orders, nothing where there is none, and their number.
pub const SELECT_TOTALS: &'static str = "SELECT COALESCE(SUM(total), 0), COUNT(*) FROM orders";

/// Quantity and revenue by product, highest revenue first.
pub const SELECT_SALES_BY_PRODUCT: &'static str =
    "SELECT product_id, product_name, SUM(quantity) AS total_qty, SUM(total) AS total_rev FROM order_items GROUP BY product_id ORDER BY total_rev DESC";

/// Revenue and number of orders by payment method, in the order of the
/// stored texts: card before cash.
pub const SELECT_REVENUE_BY_METHOD: &'static str =
    "SELECT payment_method, SUM(total) AS total_rev, COUNT(*) AS tx_count FROM orders GROUP BY payment_method ORDER BY payment_method";

impl FromRow for ProductSalesSummary {
    open spec fn of_row(row: Seq<CellView>) -> Result<ProductSalesView, Seq<char>> {
        let product_id = text_at(row, 0);
        let product_name = text_at(row, 1);
        let total_quantity = integer_at(row, 2);
        let total_revenue = integer_at(row, 3);
        if product_id is Err {
            Err(product_id->Err_0)
        } else if product_name is Err {
            Err(product_name->Err_0)
        } else if total_quantity is Err {
            Err(total_quantity->Err_0)
        } else if total_revenue is Err {
            Err(total_revenue->Err_0)
        } else {
            Ok(
                ProductSalesView {
                    product_id: product_id->Ok_0,
                    product_name: product_name->Ok_0,
                    total_quantity: total_quantity->Ok_0,
                    total_revenue: total_revenue->Ok_0,
                },
            )
        }
    }

    fn from_row(row: &Vec<Cell>) -> (r: Result<ProductSalesSummary, String>) {
        let product_id = read_text(row, 0)?;
        let product_name = read_text(row, 1)?;
        let total_quantity = read_integer(row, 2)?;
        let total_revenue = read_integer(row, 3)?;
        Ok(ProductSalesSummary { product_id, product_name, total_quantity, total_revenue })
    }
}

impl FromRow for PaymentMethodBreakdown {
    open spec fn of_row(row: Seq<CellView>) -> Result<PaymentMethodBreakdown, Seq<char>> {
        let payment_method = method_at(row, 0);
        let total_revenue = integer_at(row, 1);
        let transaction_count = integer_at(row, 2);
        if payment_method is Err {
            Err(payment_method->Err_0)
        } else if total_revenue is Err {
            Err(total_revenue->Err_0)
        } else if transaction_count is Err {
            Err(transaction_count->Err_0)
        } else {
            Ok(
                PaymentMethodBreakdown {
                    payment_method: payment_method->Ok_0,
                    total_revenue: total_revenue->Ok_0,
                    transaction_count: transaction_count->Ok_0,
                },
            )
        }
    }

    fn from_row(row: &Vec<Cell>) -> (r: Result<PaymentMethodBreakdown, String>) {
        let payment_method = read_method(row, 0)?;
        let total_revenue = read_integer(row, 1)?;
        let transaction_count = read_integer(row, 2)?;
        Ok(PaymentMethodBreakdown { payment_method, total_revenue, transaction_count })
    }
}

/// The grand totals that a row holds: revenue, then number of orders.
pub open spec fn totals_of_row(row: Seq<CellView>) -> Result<(i64, i64), Seq<char>> {
    let revenue = integer_at(row, 0);
    let count = integer_at(row, 1);
    if revenue is Err {
        Err(query_message(revenue->Err_0))
    } else if count is Err {
        Err(query_message(count->Err_0))
    } else {
        Ok((revenue->Ok_0, count->Ok_0))
    }
}

/// Reads the grand totals from the one row of `SELECT_TOTALS`. A row of
/// another shape is a query error.
pub fn totals_from_row(row: &Vec<Cell>) -> (r: Result<(i64, i64), String>)
    ensures
        outcome(r) == totals_of_row(row.deep_view()),
        r matches Err(message) ==> is_query_error(message@),
{
    let revenue = match read_integer(row, 0) {
        Ok(revenue) => revenue,
        Err(fault) => {
            return Err(query_error(&fault));
        },
    };
    let count = match read_integer(row, 1) {
        Ok(count) => count,
        Err(fault) => {
            return Err(query_error(&fault));
        },
    };
    Ok((revenue, count))
}

/// The report that is made of what was read: the grand totals, revenue
/// first, and the two lists as they came, in their order.
pub fn summary_of(
    totals: (i64, i64),
    per_product: Vec<ProductSalesSummary>,
    per_payment_method: Vec<PaymentMethodBreakdown>,
) -> (s: DashboardSummary)
    ensures
        s.total_revenue == totals.0,
        s.total_transactions == totals.1,
        s.per_product == per_product,
        s.per_payment_method == per_payment_method,
        s@ == (DashboardView {
            total_revenue: totals.0,
            total_transactions: totals.1,
            per_product: per_product.deep_view(),
            per_payment_method: per_payment_method.deep_view(),
        }),
{
    DashboardSummary {
        total_revenue: totals.0,
        total_transactions: totals.1,
        per_product,
        per_payment_method,
    }
}

/// The sales report over everything recorded: revenue and number of
/// orders, then quantity and revenue by product, then revenue and number of
/// orders by payment method. The figures and the order of the rows are as
/// the store gives them.
pub fn get_dashboard_summary_inner(db: &DbState) -> (r: Result<DashboardSummary, String>)
    ensures
        r matches Err(message) ==> is_query_error(message@) || is_row_mapping_error(message@),
{
    let totals = match query_row(&db.conn, SELECT_TOTALS, &Vec::new()) {
        Ok(row) => totals_from_row(&row)?,
        Err(e) => {
            return Err(failure("Query error: ", &e));
        },
    };
    let per_product = match query_all(&db.conn, SELECT_SALES_BY_PRODUCT, &Vec::new()) {
        Ok(rows) => read_rows::<ProductSalesSummary>(&rows)?,
        Err(f) => {
            return Err(read_failure(&f));
        },
    };
    let per_payment_method = match query_all(&db.conn, SELECT_REVENUE_BY_METHOD, &Vec::new()) {
        Ok(rows) => read_rows::<PaymentMethodBreakdown>(&rows)?,
        Err(f) => {
            return Err(read_failure(&f));
        },
    };
    Ok(summary_of(totals, per_product, per_payment_method))
}

} // verus!
