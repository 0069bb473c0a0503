use vstd::prelude::*;
use crate::cash::{CashEntry, CashFlow};
use crate::error::AppError;
use crate::text::{decimal, decimal_text, join};

verus! {

/// One line of a sale as the cashier enters it.
#[derive(Debug, Clone, Copy, PartialEq, Eq, Structural)]
pub struct SaleItemInput {
    pub product_id: i64,
    pub quantity: i64,
}

/// A sale as the cashier enters it.
#[derive(Debug)]
pub struct SaleInput {
    pub customer_id: Option<i64>,
    pub payment_method: String,
    pub discount_cents: i64,
    pub items: Vec<SaleItemInput>,
}

/// The stock and price of an active product.
#[derive(Debug, Clone, Copy, PartialEq, Eq, Structural)]
pub struct ProductStock {
    pub stock: i64,
    pub price_cents: i64,
}

/// One priced line of an accepted sale.
#[derive(Debug, Clone, Copy, PartialEq, Eq, Structural)]
pub struct SaleLine {
    pub product_id: i64,
    pub quantity: i64,
    pub unit_price_cents: i64,
    pub total_cents: i64,
    /// The change to the product's stock: the quantity sold, taken out.
    pub stock_change: i64,
}

/// An accepted sale, ready to be recorded.
#[derive(Debug)]
pub struct SalePlan {
    pub cash_session_id: i64,
    pub customer_id: Option<i64>,
    pub payment_method: String,
    pub discount_cents: i64,
    /// What the customer pays: the lines less the discount, never below zero.
    pub total_cents: i64,
    pub lines: Vec<SaleLine>,
}

pub open spec fn in_i64(x: int) -> bool {
    i64::MIN <= x <= i64::MAX
}

/// Why one line of a sale is refused, if it is. `row` is the active product
/// the line names, or `None` when there is none.
pub open spec fn item_problem(item: SaleItemInput, row: Option<ProductStock>) -> Option<AppError> {
    if item.quantity <= 0 {
        Some(AppError::InvalidQuantity)
    } else {
        match row {
            None => Some(AppError::ProductUnavailable),
            Some(p) => if p.stock < item.quantity {
                Some(AppError::InsufficientItemStock)
            } else {
                None
            },
        }
    }
}

/// The first refused line among the first `n` lines, in order.
pub open spec fn first_problem(
    items: Seq<SaleItemInput>,
    rows: Seq<Option<ProductStock>>,
    n: nat,
) -> Option<AppError>
    decreases n,
{
    if n == 0 {
        None
    } else {
        match first_problem(items, rows, (n - 1) as nat) {
            Some(e) => Some(e),
            None => item_problem(items[n - 1], rows[n - 1]),
        }
    }
}

/// Price times quantity of a line.
pub open spec fn line_total(item: SaleItemInput, row: Option<ProductStock>) -> int {
    row.unwrap().price_cents * item.quantity
}

/// The sum of the first `n` line totals.
pub open spec fn lines_sum(items: Seq<SaleItemInput>, rows: Seq<Option<ProductStock>>, n: nat) -> int
    decreases n,
{
    if n == 0 {
        0
    } else {
        lines_sum(items, rows, (n - 1) as nat) + line_total(items[n - 1], rows[n - 1])
    }
}

/// Every amount that pricing the sale computes, up to its first refused line,
/// fits in 64 bits.
pub open spec fn sale_fits(
    items: Seq<SaleItemInput>,
    rows: Seq<Option<ProductStock>>,
    discount: i64,
) -> bool {
    &&& forall|n: nat|
        0 < n <= items.len() && #[trigger] first_problem(items, rows, n) is None ==> in_i64(
            line_total(items[n - 1], rows[n - 1]),
        ) && in_i64(lines_sum(items, rows, n))
    &&& first_problem(items, rows, items.len()) is None ==> in_i64(
        lines_sum(items, rows, items.len()) - discount,
    )
}

/// Why a sale is refused, if it is: no items, no open cash session, or the
/// first refused line.
pub open spec fn sale_refusal(
    items: Seq<SaleItemInput>,
    open_session: Option<i64>,
    rows: Seq<Option<ProductStock>>,
) -> Option<AppError> {
    if items.len() == 0 {
        Some(AppError::EmptySale)
    } else if open_session is None {
        Some(AppError::CashClosed)
    } else {
        first_problem(items, rows, items.len())
    }
}

/// What the customer pays for lines summing to `sum` with `discount` off.
pub open spec fn amount_due(sum: int, discount: int) -> int {
    if sum - discount > 0 {
        sum - discount
    } else {
        0
    }
}

proof fn lemma_problem_persists(items: Seq<SaleItemInput>, rows: Seq<Option<ProductStock>>, n: nat, m: nat)
    requires
        n <= m,
        first_problem(items, rows, n) is Some,
    ensures
        first_problem(items, rows, m) == first_problem(items, rows, n),
    decreases m - n,
{
    if n < m {
        lemma_problem_persists(items, rows, n, (m - 1) as nat);
    }
}

/// Line `i` can be sold: a positive quantity of an active product with at
/// least that many units in stock.
pub open spec fn line_sellable(item: SaleItemInput, row: Option<ProductStock>) -> bool {
    item.quantity > 0 && row is Some && row.unwrap().stock >= item.quantity
}

/// A sale can be made: it has items, a cash session is open, and every line
/// can be sold.
pub open spec fn sale_acceptable(
    items: Seq<SaleItemInput>,
    open_session: Option<i64>,
    rows: Seq<Option<ProductStock>>,
) -> bool {
    &&& items.len() > 0
    &&& open_session is Some
    &&& forall|i: int| 0 <= i < items.len() ==> line_sellable(#[trigger] items[i], rows[i])
}

proof fn lemma_first_problem_none(items: Seq<SaleItemInput>, rows: Seq<Option<ProductStock>>, n: nat)
    requires
        n <= items.len(),
        n <= rows.len(),
    ensures
        first_problem(items, rows, n) is None <==> forall|i: int|
            0 <= i < n ==> line_sellable(#[trigger] items[i], rows[i]),
        first_problem(items, rows, n) is Some ==> exists|k: int|
            0 <= k < n && item_problem(#[trigger] items[k], rows[k]) == first_problem(items, rows, n)
                && forall|i: int| 0 <= i < k ==> line_sellable(#[trigger] items[i], rows[i]),
    decreases n,
{
    if n > 0 {
        lemma_first_problem_none(items, rows, (n - 1) as nat);
        if first_problem(items, rows, (n - 1) as nat) is None {
            let k = n - 1;
            assert(item_problem(items[k], rows[k]) is None <==> line_sellable(items[k], rows[k]));
        }
    }
}

/// A sale is refused exactly when it has no items, no cash session is open, or
/// some line cannot be sold; the refusal names the first reason met, checking
/// the lines in order, and that line's own problem (a non-positive quantity,
/// a missing product, or too little stock).
pub proof fn lemma_refusal_is_first_bad_line(
    items: Seq<SaleItemInput>,
    open_session: Option<i64>,
    rows: Seq<Option<ProductStock>>,
)
    requires
        rows.len() == items.len(),
    ensures
        sale_refusal(items, open_session, rows) is None <==> sale_acceptable(
            items,
            open_session,
            rows,
        ),
        items.len() > 0 && open_session is Some && sale_refusal(items, open_session, rows) is Some
            ==> exists|k: int|
            0 <= k < items.len() && item_problem(#[trigger] items[k], rows[k]) == sale_refusal(
                items,
                open_session,
                rows,
            ) && forall|i: int| 0 <= i < k ==> line_sellable(#[trigger] items[i], rows[i]),
        forall|i: int|
            0 <= i < items.len() ==> (item_problem(#[trigger] items[i], rows[i]) == Some(
                AppError::InvalidQuantity,
            ) <==> items[i].quantity <= 0),
        forall|i: int|
            0 <= i < items.len() ==> (item_problem(#[trigger] items[i], rows[i]) == Some(
                AppError::ProductUnavailable,
            ) <==> items[i].quantity > 0 && rows[i] is None),
        forall|i: int|
            0 <= i < items.len() ==> (item_problem(#[trigger] items[i], rows[i]) == Some(
                AppError::InsufficientItemStock,
            ) <==> items[i].quantity > 0 && rows[i] is Some && rows[i].unwrap().stock
                < items[i].quantity),
{
    lemma_first_problem_none(items, rows, items.len());
}

/// Checks before any lookup that a sale has items.
pub fn check_sale_items(input: &SaleInput) -> (res: Result<(), AppError>)
    ensures
        input.items@.len() == 0 ==> res == Err::<(), AppError>(AppError::EmptySale),
        input.items@.len() > 0 ==> res is Ok,
{
    if input.items.len() == 0 {
        Err(AppError::EmptySale)
    } else {
        Ok(())
    }
}

/// Tells whether pricing the sale stays within 64-bit amounts (the condition
/// under which `plan_sale` may be called).
pub fn sale_amounts_fit(input: &SaleInput, rows: &Vec<Option<ProductStock>>) -> (res: bool)
    requires
        rows@.len() == input.items@.len(),
    ensures
        res == sale_fits(input.items@, rows@, input.discount_cents),
{
    let items = &input.items;
    let n = items.len();
    let mut total: i64 = 0;
    let mut i: usize = 0;
    while i < n
        invariant
            n == items@.len(),
            items@ == input.items@,
            rows@.len() == n,
            i <= n,
            first_problem(items@, rows@, i as nat) is None,
            total == lines_sum(items@, rows@, i as nat),
            forall|k: nat|
                0 < k <= i && #[trigger] first_problem(items@, rows@, k) is None ==> in_i64(
                    line_total(items@[k - 1], rows@[k - 1]),
                ) && in_i64(lines_sum(items@, rows@, k)),
        decreases n - i,
    {
        let item = items[i];
        let ok = item.quantity > 0 && match rows[i] {
            Some(p) => p.stock >= item.quantity,
            None => false,
        };
        if !ok {
            proof {
                assert(first_problem(items@, rows@, (i + 1) as nat) is Some);
                assert forall|k: nat|
                    0 < k <= items@.len() && #[trigger] first_problem(items@, rows@, k)
                        is None implies in_i64(line_total(items@[k - 1], rows@[k - 1])) && in_i64(
                    lines_sum(items@, rows@, k),
                ) by {
                    if k > i + 1 {
                        lemma_problem_persists(items@, rows@, (i + 1) as nat, k);
                    }
                }
                lemma_problem_persists(items@, rows@, (i + 1) as nat, n as nat);
            }
            return true;
        }
        let price = rows[i].unwrap().price_cents;
        let line = match price.checked_mul(item.quantity) {
            Some(v) => v,
            None => {
                assert(first_problem(items@, rows@, (i + 1) as nat) is None);
                return false;
            },
        };
        total = match total.checked_add(line) {
            Some(v) => v,
            None => {
                assert(first_problem(items@, rows@, (i + 1) as nat) is None);
                return false;
            },
        };
        i = i + 1;
        assert(first_problem(items@, rows@, i as nat) is None);
    }
    match total.checked_sub(input.discount_cents) {
        Some(_) => true,
        None => false,
    }
}

/// Prices a sale: it needs items and an open cash session; each line, in
/// order, needs a positive quantity and an active product with that many units
/// in stock. `rows[i]` is the active product of `items[i]`, or `None`.
pub fn plan_sale(input: &SaleInput, open_session: Option<i64>, rows: &Vec<Option<ProductStock>>) -> (res:
    Result<SalePlan, AppError>)
    requires
        rows@.len() == input.items@.len(),
        sale_fits(input.items@, rows@, input.discount_cents),
    ensures
        res is Ok <==> sale_acceptable(input.items@, open_session, rows@),
        match sale_refusal(input.items@, open_session, rows@) {
            Some(e) => res == Err::<SalePlan, AppError>(e),
            None => res matches Ok(plan) && {
                &&& plan.cash_session_id == open_session.unwrap()
                &&& plan.customer_id == input.customer_id
                &&& plan.payment_method@ == input.payment_method@
                &&& plan.discount_cents == input.discount_cents
                &&& plan.total_cents == amount_due(
                    lines_sum(input.items@, rows@, input.items@.len()),
                    input.discount_cents as int,
                )
                &&& plan.lines@.len() == input.items@.len()
                &&& forall|i: int|
                    0 <= i < plan.lines@.len() ==> {
                        let line = #[trigger] plan.lines@[i];
                        &&& line.product_id == input.items@[i].product_id
                        &&& line.quantity == input.items@[i].quantity
                        &&& rows@[i] is Some
                        &&& line.unit_price_cents == rows@[i].unwrap().price_cents
                        &&& line.total_cents == line_total(input.items@[i], rows@[i])
                        &&& line.stock_change == -input.items@[i].quantity
                        &&& 0 < line.quantity <= rows@[i].unwrap().stock
                    }
            },
        },
{
    proof {
        lemma_refusal_is_first_bad_line(input.items@, open_session, rows@);
    }
    let items = &input.items;
    let n = items.len();
    if n == 0 {
        return Err(AppError::EmptySale);
    }
    let session = match open_session {
        Some(id) => id,
        None => {
            return Err(AppError::CashClosed);
        },
    };
    let mut total: i64 = 0;
    let mut lines: Vec<SaleLine> = Vec::new();
    let mut i: usize = 0;
    while i < n
        invariant
            n == items@.len(),
            0 < n,
            items@ == input.items@,
            open_session == Some(session),
            rows@.len() == n,
            i <= n,
            sale_fits(items@, rows@, input.discount_cents),
            first_problem(items@, rows@, i as nat) is None,
            total == lines_sum(items@, rows@, i as nat),
            lines@.len() == i,
            forall|k: int|
                0 <= k < i ==> {
                    let line = #[trigger] lines@[k];
                    &&& line.product_id == items@[k].product_id
                    &&& line.quantity == items@[k].quantity
                    &&& rows@[k] is Some
                    &&& line.unit_price_cents == rows@[k].unwrap().price_cents
                    &&& line.total_cents == line_total(items@[k], rows@[k])
                    &&& line.stock_change == -items@[k].quantity
                    &&& 0 < line.quantity <= rows@[k].unwrap().stock
                },
        decreases n - i,
    {
        let item = items[i];
        if item.quantity <= 0 {
            proof {
                assert(first_problem(items@, rows@, (i + 1) as nat) == Some(AppError::InvalidQuantity));
                lemma_problem_persists(items@, rows@, (i + 1) as nat, n as nat);
            }
            return Err(AppError::InvalidQuantity);
        }
        let row = match rows[i] {
            Some(p) => p,
            None => {
                proof {
                    assert(first_problem(items@, rows@, (i + 1) as nat) == Some(
                        AppError::ProductUnavailable,
                    ));
                    lemma_problem_persists(items@, rows@, (i + 1) as nat, n as nat);
                }
                return Err(AppError::ProductUnavailable);
            },
        };
        if row.stock < item.quantity {
            proof {
                assert(first_problem(items@, rows@, (i + 1) as nat) == Some(AppError::InsufficientItemStock));
                lemma_problem_persists(items@, rows@, (i + 1) as nat, n as nat);
            }
            return Err(AppError::InsufficientItemStock);
        }
        assert(first_problem(items@, rows@, (i + 1) as nat) is None);
        let line_cents = row.price_cents * item.quantity;
        total = total + line_cents;
        lines.push(
            SaleLine {
                product_id: item.product_id,
                quantity: item.quantity,
                unit_price_cents: row.price_cents,
                total_cents: line_cents,
                stock_change: -item.quantity,
            },
        );
        i = i + 1;
    }
    let due = total - input.discount_cents;
    let total_cents = if due > 0 {
        due
    } else {
        0
    };
    Ok(
        SalePlan {
            cash_session_id: session,
            customer_id: input.customer_id,
            payment_method: input.payment_method.clone(),
            discount_cents: input.discount_cents,
            total_cents,
            lines,
        },
    )
}

/// The reference by which a sale is named in stock and cash records.
pub open spec fn sale_reference_text(sale_id: int) -> Seq<char> {
    "Venda #"@ + decimal(sale_id)
}

/// `Venda #<id>`: how the stock and cash records of a sale name it.
pub fn sale_reference(sale_id: i64) -> (res: String)
    ensures
        res@ == sale_reference_text(sale_id as int),
{
    let number = decimal_text(sale_id);
    join("Venda #", number.as_str())
}

/// The cash movement that records the amount of sale `sale_id`.
pub fn sale_cash_entry(plan: &SalePlan, sale_id: i64) -> (res: CashEntry)
    ensures
        res.session_id == plan.cash_session_id,
        res.flow == CashFlow::Sale,
        res.amount_cents == plan.total_cents,
        res.description@ == sale_reference_text(sale_id as int),
{
    CashEntry {
        session_id: plan.cash_session_id,
        flow: CashFlow::Sale,
        amount_cents: plan.total_cents,
        description: sale_reference(sale_id),
    }
}

/// Every sale has its own reference: two sales with different ids are never
/// named alike in the stock and cash records.
pub proof fn lemma_sale_references_distinct(a: int, b: int)
    requires
        a != b,
    ensures
        sale_reference_text(a) != sale_reference_text(b),
{
    if sale_reference_text(a) == sale_reference_text(b) {
        let p = "Venda #"@;
        assert(decimal(a) =~= sale_reference_text(a).subrange(p.len() as int, sale_reference_text(a).len() as int));
        assert(decimal(b) =~= sale_reference_text(b).subrange(p.len() as int, sale_reference_text(b).len() as int));
        crate::text::lemma_decimal_injective(a, b);
    }
}

} // verus!
