use vstd::prelude::*;
use crate::error::AppError;
use crate::text::same_text;

verus! {

/// A manual stock movement as the user enters it.
#[derive(Debug)]
pub struct StockInput {
    pub product_id: i64,
    pub quantity: i64,
    pub kind: String,
    pub reason: String,
}

/// The signed change a movement makes: `IN` adds the quantity, anything else takes it out.
pub open spec fn stock_delta(kind: Seq<char>, quantity: int) -> int {
    if kind == "IN"@ {
        quantity
    } else {
        -quantity
    }
}

/// Checks, before any lookup, that a movement moves at least one unit.
pub fn check_stock_quantity(quantity: i64) -> (res: Result<(), AppError>)
    ensures
        quantity <= 0 ==> res == Err::<(), AppError>(AppError::NonPositiveQuantity),
        quantity > 0 ==> res is Ok,
{
    if quantity <= 0 {
        Err(AppError::NonPositiveQuantity)
    } else {
        Ok(())
    }
}

/// Decides a stock movement given the product's current stock (`None` when
/// there is no such product), and returns the change to apply.
pub fn plan_stock_move(input: &StockInput, current: Option<i64>) -> (res: Result<i64, AppError>)
    requires
        current is Some && input.quantity > 0 ==> i64::MIN <= current.unwrap() + stock_delta(
            input.kind@,
            input.quantity as int,
        ) <= i64::MAX,
    ensures
        input.quantity <= 0 ==> res == Err::<i64, AppError>(AppError::NonPositiveQuantity),
        input.quantity > 0 && current is None ==> res == Err::<i64, AppError>(
            AppError::ProductNotFound,
        ),
        input.quantity > 0 && current is Some ==> {
            let after = current.unwrap() + stock_delta(input.kind@, input.quantity as int);
            &&& after < 0 ==> res == Err::<i64, AppError>(AppError::InsufficientStock)
            &&& after >= 0 ==> res == Ok::<i64, AppError>(
                stock_delta(input.kind@, input.quantity as int) as i64,
            )
        },
        res matches Ok(d) ==> input.quantity > 0 && current is Some && current.unwrap() + d >= 0
            && (input.kind@ == "IN"@ ==> d == input.quantity) && (input.kind@ != "IN"@ ==> d
            == -input.quantity),
{
    if input.quantity <= 0 {
        return Err(AppError::NonPositiveQuantity);
    }
    let c = match current {
        Some(c) => c,
        None => {
            return Err(AppError::ProductNotFound);
        },
    };
    let delta = if same_text(input.kind.as_str(), "IN") {
        input.quantity
    } else {
        -input.quantity
    };
    if c + delta < 0 {
        return Err(AppError::InsufficientStock);
    }
    Ok(delta)
}

/// Tells whether the stock after the movement fits in 64 bits (the condition
/// under which `plan_stock_move` may be called).
pub fn stock_move_fits(input: &StockInput, current: Option<i64>) -> (res: bool)
    ensures
        res == (current is Some && input.quantity > 0 ==> i64::MIN <= current.unwrap()
            + stock_delta(input.kind@, input.quantity as int) <= i64::MAX),
{
    match current {
        None => true,
        Some(c) => {
            if input.quantity <= 0 {
                return true;
            }
            let delta = if same_text(input.kind.as_str(), "IN") {
                input.quantity
            } else {
                -input.quantity
            };
            c.checked_add(delta).is_some()
        },
    }
}

} // verus!
