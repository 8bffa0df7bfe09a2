//! Orders: recording a sale with its lines, and listing what was recorded.
//!
//! An order is checked and priced before the store is touched, then written
//! with all its lines in one transaction. When orders are listed, the lines
//! come back as one flat result and are put under their orders here.

use crate::cells::{
    integer_at, read_integer, read_rows, read_text, text_at, Cell, CellView, FromRow, SqlParam,
};
use crate::db::DbState;
use crate::driver::{begin, commit, connection_of, execute, query_all};
use crate::messages::{failure, is_query_error, is_row_mapping_error, read_failure};
use crate::models::{
    lemma_method_text_round_trip, method_of_text, method_text, outcome, unknown_method_message,
    CreateOrderItemPayload,
    CreateOrderPayload, NewLineView, NewOrderView, Order, OrderItem, OrderItemView, OrderView,
    OrderWithItems, OrderWithItemsView, PaymentMethod,
};
use crate::stamp::{new_id, utc_timestamp};
use crate::text::{decimal, int_text, join, natural, starts_with};
use vstd::prelude::*;
use vstd::string::StringExecFns;

verus! {

/// Inserts an order. Takes the order's row.
pub const INSERT_ORDER: &'static str =
    "INSERT INTO orders (id, created_at, total, payment_method) VALUES (?1, ?2, ?3, ?4)";

/// Inserts an order line. Takes the line's row.
pub const INSERT_ORDER_ITEM: &'static str =
    "INSERT INTO order_items (id, order_id, product_id, product_name, unit_price, quantity, total) VALUES (?1, ?2, ?3, ?4, ?5, ?6, ?7)";

/// All orders, newest first.
pub const SELECT_ORDERS: &'static str =
    "SELECT id, created_at, total, payment_method FROM orders ORDER BY created_at DESC";

/// All order lines, those of one order together.
pub const SELECT_ORDER_ITEMS: &'static str =
    "SELECT id, order_id, product_id, product_name, unit_price, quantity, total FROM order_items ORDER BY order_id";

/// An amount that the store can hold.
pub open spec fn in_range(n: int) -> bool {
    i64::MIN <= n <= i64::MAX
}

/// What one line comes to.
pub open spec fn line_total(line: NewLineView) -> int {
    line.unit_price * line.quantity
}

/// What the lines come to together.
pub open spec fn lines_total(lines: Seq<NewLineView>) -> int
    decreases lines.len(),
{
    if lines.len() == 0 {
        0
    } else {
        lines_total(lines.drop_last()) + line_total(lines.last())
    }
}

/// The message for an order without lines.
pub open spec fn no_items_message() -> Seq<char> {
    "Cannot create an order with no items"@
}

/// The message for a line whose quantity is not positive.
pub open spec fn invalid_quantity_message(line: NewLineView) -> Seq<char> {
    "Invalid quantity "@ + int_text(line.quantity as int) + " for product "@ + line.product_id
}

/// The message for a line that comes to more than the store can hold.
pub open spec fn line_out_of_range_message(line: NewLineView) -> Seq<char> {
    "Line total out of range for product "@ + line.product_id
}

/// The message for an order that comes to more than the store can hold.
pub open spec fn total_out_of_range_message() -> Seq<char> {
    "Order total out of range"@
}

/// Line `k` is the first whose quantity is not positive.
pub open spec fn first_bad_quantity(lines: Seq<NewLineView>, k: int) -> bool {
    &&& 0 <= k < lines.len()
    &&& lines[k].quantity <= 0
    &&& forall|j: int| 0 <= j < k ==> (#[trigger] lines[j]).quantity > 0
}

/// Line `k` is the first that comes to more than the store can hold.
pub open spec fn first_out_of_range(lines: Seq<NewLineView>, k: int) -> bool {
    &&& 0 <= k < lines.len()
    &&& !in_range(line_total(lines[k]))
    &&& forall|j: int| 0 <= j < k ==> in_range(line_total(#[trigger] lines[j]))
}

/// Every line has a positive quantity.
pub open spec fn quantities_positive(lines: Seq<NewLineView>) -> bool {
    forall|k: int| 0 <= k < lines.len() ==> (#[trigger] lines[k]).quantity > 0
}

/// Every line comes to an amount that the store can hold.
pub open spec fn lines_in_range(lines: Seq<NewLineView>) -> bool {
    forall|k: int| 0 <= k < lines.len() ==> in_range(line_total(#[trigger] lines[k]))
}

/// A request that can be recorded: it has lines, every quantity is
/// positive, and every line and the whole order come to amounts that the
/// store can hold.
pub open spec fn sound(lines: Seq<NewLineView>) -> bool {
    &&& lines.len() > 0
    &&& quantities_positive(lines)
    &&& lines_in_range(lines)
    &&& in_range(lines_total(lines))
}

/// `verdict` is what the check of a request comes to. In this order: a
/// request without lines is refused; then the first line whose quantity is
/// not positive decides; then the first line out of range; then the total
/// out of range; and a sound request comes to its total. Only the total
/// itself is held to the range, not the sums on the way to it.
pub open spec fn priced(lines: Seq<NewLineView>, verdict: Result<i64, Seq<char>>) -> bool {
    &&& lines.len() == 0 ==> verdict == Err::<i64, Seq<char>>(no_items_message())
    &&& forall|k: int| #[trigger]
        first_bad_quantity(lines, k) ==> verdict == Err::<i64, Seq<char>>(
            invalid_quantity_message(lines[k]),
        )
    &&& forall|k: int|
        quantities_positive(lines) && #[trigger] first_out_of_range(lines, k) ==> verdict == Err::<
            i64,
            Seq<char>,
        >(line_out_of_range_message(lines[k]))
    &&& lines.len() > 0 && quantities_positive(lines) && lines_in_range(lines) && !in_range(
        lines_total(lines),
    ) ==> verdict == Err::<i64, Seq<char>>(total_out_of_range_message())
    &&& sound(lines) ==> verdict == Ok::<i64, Seq<char>>(lines_total(lines) as i64)
    &&& verdict is Ok ==> sound(lines)
}

/// A request with a line whose quantity is not positive is not sound,
/// wherever the line stands.
pub proof fn lemma_quantity_must_be_positive(lines: Seq<NewLineView>, k: int)
    requires
        0 <= k < lines.len(),
        lines[k].quantity <= 0,
    ensures
        !sound(lines),
{
}

proof fn lemma_first_bad_quantity_up_to(lines: Seq<NewLineView>, bad: int)
    requires
        0 <= bad < lines.len(),
        lines[bad].quantity <= 0,
    ensures
        exists|k: int| first_bad_quantity(lines, k),
    decreases bad,
{
    if exists|j: int| 0 <= j < bad && (#[trigger] lines[j]).quantity <= 0 {
        let earlier = choose|j: int| 0 <= j < bad && (#[trigger] lines[j]).quantity <= 0;
        lemma_first_bad_quantity_up_to(lines, earlier);
    } else {
        assert(first_bad_quantity(lines, bad));
    }
}

proof fn lemma_first_out_of_range_up_to(lines: Seq<NewLineView>, bad: int)
    requires
        0 <= bad < lines.len(),
        !in_range(line_total(lines[bad])),
    ensures
        exists|k: int| first_out_of_range(lines, k),
    decreases bad,
{
    if exists|j: int| 0 <= j < bad && !in_range(line_total(#[trigger] lines[j])) {
        let earlier = choose|j: int| 0 <= j < bad && !in_range(line_total(#[trigger] lines[j]));
        lemma_first_out_of_range_up_to(lines, earlier);
    } else {
        assert(first_out_of_range(lines, bad));
    }
}

/// Every request is judged: it is sound, or exactly one of the four
/// refusals of `priced` applies to it.
pub proof fn lemma_request_is_judged(lines: Seq<NewLineView>)
    ensures
        sound(lines) || lines.len() == 0 || (exists|k: int| first_bad_quantity(lines, k)) || (
        quantities_positive(lines) && exists|k: int| first_out_of_range(lines, k)) || (
        quantities_positive(lines) && lines_in_range(lines) && !in_range(lines_total(lines))),
{
    if lines.len() > 0 {
        if !quantities_positive(lines) {
            let bad = choose|k: int| 0 <= k < lines.len() && (#[trigger] lines[k]).quantity <= 0;
            lemma_first_bad_quantity_up_to(lines, bad);
        } else if !lines_in_range(lines) {
            let bad = choose|k: int|
                0 <= k < lines.len() && !in_range(line_total(#[trigger] lines[k]));
            lemma_first_out_of_range_up_to(lines, bad);
        }
    }
}

/// The total of the lines up to and including one more is the total before
/// it plus that line.
proof fn lemma_lines_total_step(lines: Seq<NewLineView>, k: int)
    requires
        0 <= k < lines.len(),
    ensures
        lines_total(lines.take(k + 1)) == lines_total(lines.take(k)) + line_total(lines[k]),
{
    assert(lines.take(k + 1).drop_last() =~= lines.take(k));
}

fn invalid_quantity(line: &CreateOrderItemPayload) -> (s: String)
    ensures
        s@ == invalid_quantity_message(line@),
{
    let s = join("Invalid quantity ", decimal(line.quantity).as_str());
    let s = join(s.as_str(), " for product ");
    join(s.as_str(), line.product_id.as_str())
}

/// Checks the lines of a new order and adds them up, as `priced` says: an
/// order without lines is refused, then a quantity that is not positive,
/// then an amount out of range; otherwise the total is the sum of unit
/// price times quantity over all lines.
pub fn order_total(lines: &Vec<CreateOrderItemPayload>) -> (r: Result<i64, String>)
    ensures
        priced(lines.deep_view(), outcome(r)),
{
    if lines.len() == 0 {
        return Err(String::from_str("Cannot create an order with no items"));
    }
    let ghost all = lines.deep_view();
    let mut i: usize = 0;
    while i < lines.len()
        invariant
            i <= lines.len(),
            all == lines.deep_view(),
            forall|j: int| 0 <= j < i ==> (#[trigger] all[j]).quantity > 0,
        decreases lines.len() - i,
    {
        let line = &lines[i];
        assert(all[i as int] == line@);
        if line.quantity <= 0 {
            assert(first_bad_quantity(all, i as int));
            return Err(invalid_quantity(line));
        }
        i += 1;
    }
    assert(quantities_positive(all));
    let mut sum: i128 = 0;
    let mut j: usize = 0;
    while j < lines.len()
        invariant
            j <= lines.len(),
            all == lines.deep_view(),
            quantities_positive(all),
            forall|k: int| 0 <= k < j ==> in_range(line_total(#[trigger] all[k])),
            sum == lines_total(all.take(j as int)),
            -(j * 0x8000_0000_0000_0000) <= sum <= j * 0x8000_0000_0000_0000,
        decreases lines.len() - j,
    {
        let line = &lines[j];
        proof {
            assert(all[j as int] == line@);
            lemma_lines_total_step(all, j as int);
        }
        let amount = match line.unit_price.checked_mul(line.quantity) {
            Some(amount) => amount,
            None => {
                assert(first_out_of_range(all, j as int));
                return Err(join("Line total out of range for product ", line.product_id.as_str()));
            },
        };
        sum = sum + amount as i128;
        j += 1;
    }
    proof {
        assert(all.take(j as int) =~= all);
        assert(lines_in_range(all));
    }
    if sum < i64::MIN as i128 || sum > i64::MAX as i128 {
        return Err(String::from_str("Order total out of range"));
    }
    assert(sound(all));
    Ok(sum as i64)
}

/// The row that stands for an order, in the order in which `SELECT_ORDERS`
/// yields its columns and `INSERT_ORDER` takes them.
pub open spec fn order_row(o: OrderView) -> Seq<CellView> {
    seq![
        CellView::Text(o.id),
        CellView::Text(o.created_at),
        CellView::Integer(o.total),
        CellView::Text(method_text(o.payment_method)),
    ]
}

/// The row that stands for an order line, in the order in which
/// `SELECT_ORDER_ITEMS` yields its columns and `INSERT_ORDER_ITEM` takes
/// them.
pub open spec fn item_row(item: OrderItemView) -> Seq<CellView> {
    seq![
        CellView::Text(item.id),
        CellView::Text(item.order_id),
        CellView::Text(item.product_id),
        CellView::Text(item.product_name),
        CellView::Integer(item.unit_price),
        CellView::Integer(item.quantity),
        CellView::Integer(item.total),
    ]
}

/// What is reported of a text column whose text cannot be taken for what
/// it should be.
pub open spec fn conversion_fault(i: int, detail: Seq<char>) -> Seq<char> {
    "Conversion error from type Text at index: "@ + int_text(i) + ", "@ + detail
}

/// Column `i` read as a payment method: a text cell that holds one of the
/// two stored texts.
pub open spec fn method_at(row: Seq<CellView>, i: int) -> Result<PaymentMethod, Seq<char>> {
    match text_at(row, i) {
        Err(fault) => Err(fault),
        Ok(stored) => match method_of_text(stored) {
            Some(method) => Ok(method),
            None => Err(conversion_fault(i, unknown_method_message(stored))),
        },
    }
}

/// Reads column `i` of a row as a payment method.
pub fn read_method(row: &Vec<Cell>, i: usize) -> (r: Result<PaymentMethod, String>)
    ensures
        match r {
            Ok(method) => method_at(row.deep_view(), i as int) == Ok::<PaymentMethod, Seq<char>>(
                method,
            ),
            Err(fault) => method_at(row.deep_view(), i as int) == Err::<PaymentMethod, Seq<char>>(
                fault@,
            ),
        },
{
    let stored = read_text(row, i)?;
    match PaymentMethod::from_db_str(stored.as_str()) {
        Ok(method) => Ok(method),
        Err(detail) => {
            let s = join("Conversion error from type Text at index: ", natural(i as u64).as_str());
            let s = join(s.as_str(), ", ");
            Err(join(s.as_str(), detail.as_str()))
        },
    }
}

impl FromRow for Order {
    /// The payment method is looked at first, so it is the one reported
    /// where several columns are wrong.
    open spec fn of_row(row: Seq<CellView>) -> Result<OrderView, Seq<char>> {
        let payment_method = method_at(row, 3);
        let id = text_at(row, 0);
        let created_at = text_at(row, 1);
        let total = integer_at(row, 2);
        if payment_method is Err {
            Err(payment_method->Err_0)
        } else if id is Err {
            Err(id->Err_0)
        } else if created_at is Err {
            Err(created_at->Err_0)
        } else if total is Err {
            Err(total->Err_0)
        } else {
            Ok(
                OrderView {
                    id: id->Ok_0,
                    created_at: created_at->Ok_0,
                    total: total->Ok_0,
                    payment_method: payment_method->Ok_0,
                },
            )
        }
    }

    fn from_row(row: &Vec<Cell>) -> (r: Result<Order, String>) {
        let payment_method = read_method(row, 3)?;
        let id = read_text(row, 0)?;
        let created_at = read_text(row, 1)?;
        let total = read_integer(row, 2)?;
        Ok(Order { id, created_at, total, payment_method })
    }
}

impl FromRow for OrderItem {
    open spec fn of_row(row: Seq<CellView>) -> Result<OrderItemView, Seq<char>> {
        let id = text_at(row, 0);
        let order_id = text_at(row, 1);
        let product_id = text_at(row, 2);
        let product_name = text_at(row, 3);
        let unit_price = integer_at(row, 4);
        let quantity = integer_at(row, 5);
        let total = integer_at(row, 6);
        if id is Err {
            Err(id->Err_0)
        } else if order_id is Err {
            Err(order_id->Err_0)
        } else if product_id is Err {
            Err(product_id->Err_0)
        } else if product_name is Err {
            Err(product_name->Err_0)
        } else if unit_price is Err {
            Err(unit_price->Err_0)
        } else if quantity is Err {
            Err(quantity->Err_0)
        } else if total is Err {
            Err(total->Err_0)
        } else {
            Ok(
                OrderItemView {
                    id: id->Ok_0,
                    order_id: order_id->Ok_0,
                    product_id: product_id->Ok_0,
                    product_name: product_name->Ok_0,
                    unit_price: unit_price->Ok_0,
                    quantity: quantity->Ok_0,
                    total: total->Ok_0,
                },
            )
        }
    }

    fn from_row(row: &Vec<Cell>) -> (r: Result<OrderItem, String>) {
        let id = read_text(row, 0)?;
        let order_id = read_text(row, 1)?;
        let product_id = read_text(row, 2)?;
        let product_name = read_text(row, 3)?;
        let unit_price = read_integer(row, 4)?;
        let quantity = read_integer(row, 5)?;
        let total = read_integer(row, 6)?;
        Ok(OrderItem { id, order_id, product_id, product_name, unit_price, quantity, total })
    }
}

/// An order is read back from its own row, payment method included.
pub proof fn lemma_order_row_round_trip(o: OrderView)
    ensures
        Order::of_row(order_row(o)) == Ok::<OrderView, Seq<char>>(o),
{
    lemma_method_text_round_trip(o.payment_method);
}

/// An order line is read back from its own row.
pub proof fn lemma_item_row_round_trip(item: OrderItemView)
    ensures
        OrderItem::of_row(item_row(item)) == Ok::<OrderItemView, Seq<char>>(item),
{
}

/// The values that `INSERT_ORDER` is run with: the order's row.
pub fn order_params(o: &Order) -> (params: Vec<SqlParam>)
    ensures
        params.deep_view() == order_row(o@),
{
    let params = vec![
        SqlParam::Text(o.id.clone()),
        SqlParam::Text(o.created_at.clone()),
        SqlParam::Integer(o.total),
        SqlParam::Text(String::from_str(o.payment_method.as_db_str())),
    ];
    assert(params.deep_view() =~= order_row(o@));
    params
}

/// The values that `INSERT_ORDER_ITEM` is run with: the line's row.
pub fn item_params(item: &OrderItem) -> (params: Vec<SqlParam>)
    ensures
        params.deep_view() == item_row(item@),
{
    let params = vec![
        SqlParam::Text(item.id.clone()),
        SqlParam::Text(item.order_id.clone()),
        SqlParam::Text(item.product_id.clone()),
        SqlParam::Text(item.product_name.clone()),
        SqlParam::Integer(item.unit_price),
        SqlParam::Integer(item.quantity),
        SqlParam::Integer(item.total),
    ];
    assert(params.deep_view() =~= item_row(item@));
    params
}

/// A recorded line holds what the line of the request said, at the price
/// that the request named, under the order it belongs to.
pub open spec fn line_recorded(item: OrderItemView, line: NewLineView, order_id: Seq<char>) -> bool {
    &&& item.order_id == order_id
    &&& item.product_id == line.product_id
    &&& item.product_name == line.product_name
    &&& item.unit_price == line.unit_price
    &&& item.quantity == line.quantity
    &&& item.total == line_total(line)
}

/// A recorded order holds what the request said: its payment method, one
/// line for each line of the request, in order, and their sum as total.
pub open spec fn records(order: OrderWithItemsView, request: NewOrderView) -> bool {
    &&& order.order.payment_method == request.payment_method
    &&& order.order.total == lines_total(request.items)
    &&& order.items.len() == request.items.len()
    &&& forall|i: int|
        0 <= i < request.items.len() ==> line_recorded(
            #[trigger] order.items[i],
            request.items[i],
            order.order.id,
        )
}

/// What the recorded lines come to together.
pub open spec fn items_total(items: Seq<OrderItemView>) -> int
    decreases items.len(),
{
    if items.len() == 0 {
        0
    } else {
        items_total(items.drop_last()) + items.last().total
    }
}

/// An order as it may stand on record: every line names the order, has a
/// positive quantity and comes to unit price times quantity, and the order
/// comes to the sum of its lines.
pub open spec fn well_formed(order: OrderWithItemsView) -> bool {
    &&& order.order.total == items_total(order.items)
    &&& forall|i: int|
        0 <= i < order.items.len() ==> {
            &&& (#[trigger] order.items[i]).order_id == order.order.id
            &&& order.items[i].quantity > 0
            &&& order.items[i].total == order.items[i].unit_price * order.items[i].quantity
        }
}

proof fn lemma_items_total_of_recorded(
    items: Seq<OrderItemView>,
    lines: Seq<NewLineView>,
    order_id: Seq<char>,
)
    requires
        items.len() == lines.len(),
        forall|i: int| 0 <= i < lines.len() ==> line_recorded(#[trigger] items[i], lines[i], order_id),
    ensures
        items_total(items) == lines_total(lines),
    decreases items.len(),
{
    if items.len() > 0 {
        let shorter = items.drop_last();
        let fewer = lines.drop_last();
        assert forall|i: int| 0 <= i < fewer.len() implies line_recorded(
            #[trigger] shorter[i],
            fewer[i],
            order_id,
        ) by {
            assert(line_recorded(items[i], lines[i], order_id));
        }
        lemma_items_total_of_recorded(shorter, fewer, order_id);
        assert(line_recorded(items[items.len() - 1], lines[lines.len() - 1], order_id));
    }
}

/// An order that records a sound request is well formed.
pub proof fn lemma_recorded_order_is_well_formed(order: OrderWithItemsView, request: NewOrderView)
    requires
        records(order, request),
        sound(request.items),
    ensures
        well_formed(order),
{
    lemma_items_total_of_recorded(order.items, request.items, order.order.id);
    assert forall|i: int| 0 <= i < order.items.len() implies {
        &&& (#[trigger] order.items[i]).order_id == order.order.id
        &&& order.items[i].quantity > 0
        &&& order.items[i].total == order.items[i].unit_price * order.items[i].quantity
    } by {
        assert(line_recorded(order.items[i], request.items[i], order.order.id));
        assert(request.items[i].quantity > 0);
    }
}

/// What can go wrong while an order is written: the transaction does not
/// begin, the order or one of its lines is refused, or the transaction does
/// not commit. In each case the store holds nothing of the order.
pub open spec fn is_persist_error(message: Seq<char>) -> bool {
    ||| starts_with(message, "Transaction begin error: "@)
    ||| starts_with(message, "Insert order error: "@)
    ||| starts_with(message, "Insert order item error: "@)
    ||| starts_with(message, "Transaction commit error: "@)
}

/// Writes an order and its lines in one transaction. The first refusal
/// ends it: the transaction is dropped uncommitted, which rolls it back.
#[verifier::loop_isolation(false)]
fn persist(db: &mut DbState, order: &OrderWithItems) -> (r: Result<(), String>)
    ensures
        r matches Err(message) ==> is_persist_error(message@),
        final(db).db_path == old(db).db_path,
{
    let tx = match begin(&mut db.conn) {
        Ok(tx) => tx,
        Err(e) => {
            return Err(failure("Transaction begin error: ", &e));
        },
    };
    match execute(connection_of(&tx), INSERT_ORDER, &order_params(&order.order)) {
        Ok(_) => {},
        Err(e) => {
            return Err(failure("Insert order error: ", &e));
        },
    }
    let mut i: usize = 0;
    while i < order.items.len()
        invariant
            i <= order.items.len(),
        decreases order.items.len() - i,
    {
        match execute(connection_of(&tx), INSERT_ORDER_ITEM, &item_params(&order.items[i])) {
            Ok(_) => {},
            Err(e) => {
                return Err(failure("Insert order item error: ", &e));
            },
        }
        i += 1;
    }
    match commit(tx) {
        Ok(()) => Ok(()),
        Err(e) => Err(failure("Transaction commit error: ", &e)),
    }
}

/// Records an order. The lines are checked and priced first, as
/// `order_total` does, and a request that fails there never reaches the
/// store. Then the order gets a fresh identifier, each line another, and the
/// current time, and all of it is written in one transaction. On success
/// the order is returned as it was written: every line at the price and
/// under the name that the request gave.
pub fn create_order_inner(db: &mut DbState, payload: CreateOrderPayload) -> (r: Result<
    OrderWithItems,
    String,
>)
    ensures
        !sound(payload@.items) ==> r is Err && priced(
            payload@.items,
            Err::<i64, Seq<char>>(r->Err_0@),
        ),
        sound(payload@.items) ==> match r {
            Ok(order) => records(order@, payload@) && well_formed(order@),
            Err(message) => is_persist_error(message@),
        },
        final(db).db_path == old(db).db_path,
{
    let total = order_total(&payload.items)?;
    let ghost lines = payload@.items;
    let order_id = new_id();
    let mut items: Vec<OrderItem> = Vec::new();
    let mut i: usize = 0;
    while i < payload.items.len()
        invariant
            i <= payload.items.len(),
            lines == payload.items.deep_view(),
            sound(lines),
            items.len() == i,
            forall|j: int|
                0 <= j < i ==> line_recorded(#[trigger] items.deep_view()[j], lines[j], order_id@),
        decreases payload.items.len() - i,
    {
        let line = &payload.items[i];
        proof {
            assert(lines[i as int] == line@);
            assert(in_range(line_total(lines[i as int])));
        }
        let item = OrderItem {
            id: new_id(),
            order_id: order_id.clone(),
            product_id: line.product_id.clone(),
            product_name: line.product_name.clone(),
            unit_price: line.unit_price,
            quantity: line.quantity,
            total: line.unit_price * line.quantity,
        };
        let ghost before = items.deep_view();
        items.push(item);
        proof {
            assert(items.deep_view() =~= before.push(item@));
        }
        i += 1;
    }
    let order = OrderWithItems {
        order: Order {
            id: order_id,
            created_at: utc_timestamp(),
            total,
            payment_method: payload.payment_method,
        },
        items,
    };
    proof {
        lemma_recorded_order_is_well_formed(order@, payload@);
    }
    match persist(db, &order) {
        Ok(()) => Ok(order),
        Err(message) => Err(message),
    }
}

/// The lines of the order `order_id` among `items`, in the order in which
/// they stand there.
pub open spec fn lines_of(items: Seq<OrderItemView>, order_id: Seq<char>) -> Seq<OrderItemView> {
    items.filter(|item: OrderItemView| item.order_id == order_id)
}

/// An earlier order of the listing has the identifier of order `i`.
pub open spec fn seen_before(orders: Seq<OrderView>, i: int) -> bool {
    exists|j: int| 0 <= j < i && (#[trigger] orders[j]).id == orders[i].id
}

/// Each order with its lines. The store keeps identifiers apart; should a
/// listing repeat one all the same, the first order of that identifier has
/// the lines and the later ones have none.
pub open spec fn attached(orders: Seq<OrderView>, items: Seq<OrderItemView>) -> Seq<
    OrderWithItemsView,
> {
    Seq::new(
        orders.len(),
        |i: int|
            OrderWithItemsView {
                order: orders[i],
                items: if seen_before(orders, i) {
                    Seq::empty()
                } else {
                    lines_of(items, orders[i].id)
                },
            },
    )
}

/// Every line stands under the order that it names.
pub open spec fn well_grouped(listing: Seq<OrderWithItemsView>) -> bool {
    forall|i: int, j: int|
        0 <= i < listing.len() && 0 <= j < listing[i].items.len() ==> (
        #[trigger] listing[i].items[j]).order_id == listing[i].order.id
}

/// One more item joins the lines of an order exactly if it names it.
proof fn lemma_lines_of_push(items: Seq<OrderItemView>, item: OrderItemView, order_id: Seq<char>)
    ensures
        lines_of(items.push(item), order_id) == if item.order_id == order_id {
            lines_of(items, order_id).push(item)
        } else {
            lines_of(items, order_id)
        },
{
    reveal(Seq::filter);
    assert(items.push(item).drop_last() =~= items);
}

/// The lines of an order all name it.
proof fn lemma_lines_of_name_order(items: Seq<OrderItemView>, order_id: Seq<char>)
    ensures
        forall|j: int|
            0 <= j < lines_of(items, order_id).len() ==> (#[trigger] lines_of(
                items,
                order_id,
            )[j]).order_id == order_id,
    decreases items.len(),
{
    reveal(Seq::filter);
    if items.len() > 0 {
        lemma_lines_of_name_order(items.drop_last(), order_id);
    }
}

/// Putting lines under their orders leaves every line under the order that
/// it names.
pub proof fn lemma_attached_is_well_grouped(orders: Seq<OrderView>, items: Seq<OrderItemView>)
    ensures
        well_grouped(attached(orders, items)),
{
    let listing = attached(orders, items);
    assert forall|i: int, j: int|
        0 <= i < listing.len() && 0 <= j < listing[i].items.len() implies (
    #[trigger] listing[i].items[j]).order_id == listing[i].order.id by {
        lemma_lines_of_name_order(items, orders[i].id);
    }
}

fn copy_of_order(o: &Order) -> (c: Order)
    ensures
        c@ == o@,
{
    Order {
        id: o.id.clone(),
        created_at: o.created_at.clone(),
        total: o.total,
        payment_method: o.payment_method,
    }
}

fn copy_of_item(item: &OrderItem) -> (c: OrderItem)
    ensures
        c@ == item@,
{
    OrderItem {
        id: item.id.clone(),
        order_id: item.order_id.clone(),
        product_id: item.product_id.clone(),
        product_name: item.product_name.clone(),
        unit_price: item.unit_price,
        quantity: item.quantity,
        total: item.total,
    }
}

fn is_seen_before(orders: &Vec<Order>, i: usize) -> (b: bool)
    requires
        i < orders.len(),
    ensures
        b == seen_before(orders.deep_view(), i as int),
{
    let mut j: usize = 0;
    while j < i
        invariant
            j <= i,
            i < orders.len(),
            forall|k: int| 0 <= k < j ==> (#[trigger] orders.deep_view()[k]).id != orders.deep_view()[i as int].id,
        decreases i - j,
    {
        if orders[j].id == orders[i].id {
            assert(orders.deep_view()[j as int].id == orders.deep_view()[i as int].id);
            return true;
        }
        j += 1;
    }
    false
}

fn collect_lines(items: &Vec<OrderItem>, order_id: &String) -> (lines: Vec<OrderItem>)
    ensures
        lines.deep_view() == lines_of(items.deep_view(), order_id@),
{
    let mut lines: Vec<OrderItem> = Vec::new();
    let mut j: usize = 0;
    proof {
        reveal(Seq::filter);
        assert(items.deep_view().take(0) =~= Seq::empty());
        assert(lines.deep_view() =~= lines_of(items.deep_view().take(0), order_id@));
    }
    while j < items.len()
        invariant
            j <= items.len(),
            lines.deep_view() == lines_of(items.deep_view().take(j as int), order_id@),
        decreases items.len() - j,
    {
        let ghost before = lines.deep_view();
        proof {
            lemma_lines_of_push(
                items.deep_view().take(j as int),
                items.deep_view()[j as int],
                order_id@,
            );
            assert(items.deep_view().take(j as int + 1) =~= items.deep_view().take(j as int).push(
                items.deep_view()[j as int],
            ));
        }
        if items[j].order_id == *order_id {
            lines.push(copy_of_item(&items[j]));
            proof {
                assert(lines.deep_view() =~= before.push(items.deep_view()[j as int]));
            }
        }
        j += 1;
    }
    proof {
        assert(items.deep_view().take(j as int) =~= items.deep_view());
    }
    lines
}

/// Puts the lines under their orders: the listing keeps the orders in
/// their order, and each order has its lines in the order in which they
/// came.
pub fn attach_items(orders: &Vec<Order>, items: &Vec<OrderItem>) -> (listing: Vec<OrderWithItems>)
    ensures
        listing.deep_view() == attached(orders.deep_view(), items.deep_view()),
{
    let mut listing: Vec<OrderWithItems> = Vec::new();
    let mut i: usize = 0;
    while i < orders.len()
        invariant
            i <= orders.len(),
            listing.len() == i,
            forall|k: int|
                0 <= k < i ==> (#[trigger] listing.deep_view()[k]) == attached(
                    orders.deep_view(),
                    items.deep_view(),
                )[k],
        decreases orders.len() - i,
    {
        let lines = if is_seen_before(orders, i) {
            Vec::new()
        } else {
            collect_lines(items, &orders[i].id)
        };
        let entry = OrderWithItems { order: copy_of_order(&orders[i]), items: lines };
        proof {
            assert(lines.deep_view() =~= attached(orders.deep_view(), items.deep_view())[i as int].items);
            assert(entry@ == attached(orders.deep_view(), items.deep_view())[i as int]);
        }
        let ghost before = listing.deep_view();
        listing.push(entry);
        proof {
            assert(listing.deep_view() =~= before.push(entry@));
        }
        i += 1;
    }
    assert(listing.deep_view() =~= attached(orders.deep_view(), items.deep_view()));
    listing
}

/// Lists the recorded orders, in the order in which the store yields them:
/// newest first. Each comes with its lines; an order without lines comes
/// with none.
pub fn list_orders_inner(db: &DbState) -> (r: Result<Vec<OrderWithItems>, String>)
    ensures
        match r {
            Ok(listing) => {
                &&& well_grouped(listing.deep_view())
                &&& exists|orders: Seq<OrderView>, lines: Seq<OrderItemView>|
                    listing.deep_view() == #[trigger] attached(orders, lines)
            },
            Err(message) => is_query_error(message@) || is_row_mapping_error(message@),
        },
{
    let orders = match query_all(&db.conn, SELECT_ORDERS, &Vec::new()) {
        Ok(rows) => read_rows::<Order>(&rows)?,
        Err(f) => {
            return Err(read_failure(&f));
        },
    };
    let items = match query_all(&db.conn, SELECT_ORDER_ITEMS, &Vec::new()) {
        Ok(rows) => read_rows::<OrderItem>(&rows)?,
        Err(f) => {
            return Err(read_failure(&f));
        },
    };
    proof {
        lemma_attached_is_well_grouped(orders.deep_view(), items.deep_view());
    }
    Ok(attach_items(&orders, &items))
}

/// The orders of a listing, without their lines.
pub open spec fn orders_of(listing: Seq<OrderWithItemsView>) -> Seq<OrderView> {
    listing.map_values(|entry: OrderWithItemsView| entry.order)
}

/// The lines of all orders of a listing in one sequence, order after order.
pub open spec fn all_lines(listing: Seq<OrderWithItemsView>) -> Seq<OrderItemView>
    decreases listing.len(),
{
    if listing.len() == 0 {
        Seq::empty()
    } else {
        all_lines(listing.drop_last()) + listing.last().items
    }
}

/// No two orders of the listing share an identifier.
pub open spec fn distinct_ids(listing: Seq<OrderWithItemsView>) -> bool {
    forall|i: int, j: int|
        0 <= i < j < listing.len() ==> (#[trigger] listing[i]).order.id != (
        #[trigger] listing[j]).order.id
}

proof fn lemma_lines_of_own(lines: Seq<OrderItemView>, order_id: Seq<char>)
    requires
        forall|j: int| 0 <= j < lines.len() ==> (#[trigger] lines[j]).order_id == order_id,
    ensures
        lines_of(lines, order_id) == lines,
    decreases lines.len(),
{
    reveal(Seq::filter);
    if lines.len() > 0 {
        lemma_lines_of_own(lines.drop_last(), order_id);
        assert(lines.drop_last().push(lines.last()) =~= lines);
    }
}

proof fn lemma_lines_of_others(lines: Seq<OrderItemView>, order_id: Seq<char>)
    requires
        forall|j: int| 0 <= j < lines.len() ==> (#[trigger] lines[j]).order_id != order_id,
    ensures
        lines_of(lines, order_id) == Seq::<OrderItemView>::empty(),
    decreases lines.len(),
{
    reveal(Seq::filter);
    if lines.len() > 0 {
        lemma_lines_of_others(lines.drop_last(), order_id);
    } else {
        assert(lines =~= Seq::<OrderItemView>::empty());
    }
}

proof fn lemma_lines_of_concat(
    left: Seq<OrderItemView>,
    right: Seq<OrderItemView>,
    order_id: Seq<char>,
)
    ensures
        lines_of(left + right, order_id) == lines_of(left, order_id) + lines_of(right, order_id),
{
    Seq::filter_distributes_over_add(
        left,
        right,
        |item: OrderItemView| item.order_id == order_id,
    );
}

proof fn lemma_no_lines_of_unknown(stored: Seq<OrderWithItemsView>, order_id: Seq<char>)
    requires
        well_grouped(stored),
        forall|j: int| 0 <= j < stored.len() ==> (#[trigger] stored[j]).order.id != order_id,
    ensures
        lines_of(all_lines(stored), order_id) == Seq::<OrderItemView>::empty(),
    decreases stored.len(),
{
    if stored.len() == 0 {
        lemma_lines_of_others(all_lines(stored), order_id);
    } else {
        let init = stored.drop_last();
        let last = stored.last();
        assert forall|i: int, j: int|
            0 <= i < init.len() && 0 <= j < init[i].items.len() implies (
        #[trigger] init[i].items[j]).order_id == init[i].order.id by {
            assert(init[i] == stored[i]);
        }
        assert forall|j: int| 0 <= j < init.len() implies (#[trigger] init[j]).order.id
            != order_id by {
            assert(init[j] == stored[j]);
        }
        lemma_no_lines_of_unknown(init, order_id);
        assert forall|j: int| 0 <= j < last.items.len() implies (#[trigger] last.items[j]).order_id
            != order_id by {
            assert(stored[stored.len() - 1].items[j].order_id == stored[stored.len() - 1].order.id);
        }
        lemma_lines_of_others(last.items, order_id);
        lemma_lines_of_concat(all_lines(init), last.items, order_id);
        assert(lines_of(all_lines(stored), order_id) =~= Seq::<OrderItemView>::empty());
    }
}

/// Among the lines of all stored orders, those of one order are found
/// again, complete and in order.
pub proof fn lemma_lines_found_again(stored: Seq<OrderWithItemsView>, i: int)
    requires
        distinct_ids(stored),
        well_grouped(stored),
        0 <= i < stored.len(),
    ensures
        lines_of(all_lines(stored), stored[i].order.id) == stored[i].items,
    decreases stored.len(),
{
    let order_id = stored[i].order.id;
    let init = stored.drop_last();
    let last = stored.last();
    assert forall|a: int, b: int|
        0 <= a < init.len() && 0 <= b < init[a].items.len() implies (
    #[trigger] init[a].items[b]).order_id == init[a].order.id by {
        assert(init[a] == stored[a]);
    }
    assert forall|a: int, b: int| 0 <= a < b < init.len() implies (#[trigger] init[a]).order.id != (
    #[trigger] init[b]).order.id by {
        assert(init[a] == stored[a]);
        assert(init[b] == stored[b]);
    }
    lemma_lines_of_concat(all_lines(init), last.items, order_id);
    if i == stored.len() - 1 {
        assert forall|j: int| 0 <= j < init.len() implies (#[trigger] init[j]).order.id
            != order_id by {
            assert(init[j] == stored[j]);
        }
        lemma_no_lines_of_unknown(init, order_id);
        assert forall|j: int| 0 <= j < last.items.len() implies (#[trigger] last.items[j]).order_id
            == order_id by {
            assert(stored[i].items[j].order_id == stored[i].order.id);
        }
        lemma_lines_of_own(last.items, order_id);
        assert(Seq::<OrderItemView>::empty() + last.items =~= last.items);
    } else {
        assert(init[i] == stored[i]);
        lemma_lines_found_again(init, i);
        assert forall|j: int| 0 <= j < last.items.len() implies (#[trigger] last.items[j]).order_id
            != order_id by {
            assert(stored[stored.len() - 1].items[j].order_id == stored[stored.len() - 1].order.id);
        }
        lemma_lines_of_others(last.items, order_id);
        assert(stored[i].items + Seq::<OrderItemView>::empty() =~= stored[i].items);
    }
}

/// What was recorded is what is listed. Take orders with distinct
/// identifiers whose lines name them, as recording makes them, and let the
/// store hold their lines order after order. Then any listing of some of
/// these orders, each once and in whatever order, comes back from
/// `attached` as it was recorded: every order with exactly its lines.
pub proof fn lemma_listing_round_trip(
    stored: Seq<OrderWithItemsView>,
    listed: Seq<OrderWithItemsView>,
)
    requires
        distinct_ids(stored),
        well_grouped(stored),
        distinct_ids(listed),
        forall|i: int| 0 <= i < listed.len() ==> stored.contains(#[trigger] listed[i]),
    ensures
        attached(orders_of(listed), all_lines(stored)) == listed,
{
    let orders = orders_of(listed);
    let result = attached(orders, all_lines(stored));
    assert forall|i: int| 0 <= i < listed.len() implies result[i] == listed[i] by {
        assert(stored.contains(listed[i]));
        let at = choose|at: int| 0 <= at < stored.len() && stored[at] == listed[i];
        lemma_lines_found_again(stored, at);
        if seen_before(orders, i) {
            let j = choose|j: int| 0 <= j < i && (#[trigger] orders[j]).id == orders[i].id;
            assert(listed[j].order.id == listed[i].order.id);
        }
    }
    assert(result =~= listed);
}

/// An order that was just recorded, listed alone with its own lines, comes
/// back as it was recorded.
pub proof fn lemma_recorded_order_is_listed(order: OrderWithItemsView, request: NewOrderView)
    requires
        records(order, request),
    ensures
        attached(seq![order.order], order.items) == seq![order],
{
    let stored = seq![order];
    assert(stored.drop_last() =~= Seq::<OrderWithItemsView>::empty());
    assert(all_lines(stored) =~= order.items) by {
        assert(all_lines(stored.drop_last()) =~= Seq::<OrderItemView>::empty());
    }
    assert(stored.contains(stored[0]));
    lemma_listing_round_trip(stored, stored);
    assert(orders_of(stored) =~= seq![order.order]);
}

/// The rows that the store holds for orders, one for each order.
pub open spec fn order_rows(orders: Seq<OrderView>) -> Seq<Seq<CellView>> {
    orders.map_values(|o: OrderView| order_row(o))
}

/// The rows that the store holds for order lines, one for each line.
pub open spec fn item_rows(items: Seq<OrderItemView>) -> Seq<Seq<CellView>> {
    items.map_values(|item: OrderItemView| item_row(item))
}

/// A recorded order is then listed. Take orders as recording makes them,
/// and let the store yield the rows that were written for them: the rows
/// of some of the orders, each once and in whatever order, and the rows of
/// all lines, order after order. Then what is read from these rows and put
/// together is each listed order as it was recorded, with the same total,
/// time and payment method and with exactly its lines.
pub proof fn lemma_rows_round_trip(
    stored: Seq<OrderWithItemsView>,
    listed: Seq<OrderWithItemsView>,
    orders: Seq<OrderView>,
    items: Seq<OrderItemView>,
)
    requires
        distinct_ids(stored),
        well_grouped(stored),
        distinct_ids(listed),
        forall|i: int| 0 <= i < listed.len() ==> stored.contains(#[trigger] listed[i]),
        orders.len() == listed.len(),
        forall|k: int|
            0 <= k < orders.len() ==> Order::of_row(
                #[trigger] order_rows(orders_of(listed))[k],
            ) == Ok::<OrderView, Seq<char>>(orders[k]),
        items.len() == all_lines(stored).len(),
        forall|k: int|
            0 <= k < items.len() ==> OrderItem::of_row(
                #[trigger] item_rows(all_lines(stored))[k],
            ) == Ok::<OrderItemView, Seq<char>>(items[k]),
    ensures
        attached(orders, items) == listed,
{
    assert forall|k: int| 0 <= k < orders.len() implies orders[k] == orders_of(listed)[k] by {
        lemma_order_row_round_trip(orders_of(listed)[k]);
        assert(order_rows(orders_of(listed))[k] == order_row(orders_of(listed)[k]));
    }
    assert(orders =~= orders_of(listed));
    assert forall|k: int| 0 <= k < items.len() implies items[k] == all_lines(stored)[k] by {
        lemma_item_row_round_trip(all_lines(stored)[k]);
        assert(item_rows(all_lines(stored))[k] == item_row(all_lines(stored)[k]));
    }
    assert(items =~= all_lines(stored));
    lemma_listing_round_trip(stored, listed);
}

} // verus!
