use vstd::prelude::*;

verus! {

/// Division rounded toward zero, as integer division in Rust rounds.
pub open spec fn div_toward_zero(a: int, b: int) -> int {
    if a >= 0 {
        a / b
    } else {
        -((-a) / b)
    }
}

/// The average ticket of the day: revenue over the number of sales, rounded
/// toward zero, or zero when there was no sale.
pub fn average_ticket(revenue_cents: i64, sales: i64) -> (res: i64)
    ensures
        sales > 0 ==> res == div_toward_zero(revenue_cents as int, sales as int),
        sales <= 0 ==> res == 0,
        sales > 0 && revenue_cents >= 0 ==> res * sales <= revenue_cents < (res + 1) * sales,
{
    if sales > 0 {
        let r = revenue_cents / sales;
        proof {
            if revenue_cents >= 0 {
                assert(r * sales <= revenue_cents < (r + 1) * sales) by (nonlinear_arith)
                    requires
                        r == revenue_cents as int / sales as int,
                        sales > 0,
                        revenue_cents >= 0,
                ;
            }
        }
        r
    } else {
        0
    }
}

} // verus!
