use vstd::prelude::*;
use crate::error::AppError;

verus! {

/// The direction of a movement in the cash drawer.
#[derive(Debug, Clone, Copy, PartialEq, Eq, Structural)]
pub enum CashFlow {
    In,
    Out,
    Sale,
}

impl CashFlow {
    /// The name under which the movement is stored.
    pub open spec fn label(self) -> Seq<char> {
        match self {
            CashFlow::In => "IN"@,
            CashFlow::Out => "OUT"@,
            CashFlow::Sale => "SALE"@,
        }
    }

    /// The name under which the movement is stored.
    pub fn label_text(&self) -> (res: String)
        ensures
            res@ == self.label(),
    {
        match self {
            CashFlow::In => "IN".to_owned(),
            CashFlow::Out => "OUT".to_owned(),
            CashFlow::Sale => "SALE".to_owned(),
        }
    }
}

/// One movement to be recorded in the open cash session.
#[derive(Debug)]
pub struct CashEntry {
    pub session_id: i64,
    pub flow: CashFlow,
    pub amount_cents: i64,
    pub description: String,
}

/// What a cash command needs before it can be decided.
#[derive(Debug, PartialEq, Eq, Structural)]
pub enum CashStart {
    /// Open a new session with this opening balance; no lookup is needed.
    Open { opening_cents: i64 },
    /// The open session must be looked up first.
    NeedsSession,
}

/// What a cash command does.
#[derive(Debug)]
pub enum CashOperation {
    /// Open a new session with this opening balance.
    Open { opening_cents: i64 },
    /// Close the session, storing its balance.
    Close { session_id: i64 },
    /// Record a manual movement.
    Move(CashEntry),
}

/// The text recorded for a manual movement given without a description.
pub open spec fn default_description() -> Seq<char> {
    "Movimentação manual"@
}

/// First step of a cash command: refuses a negative amount, and tells an
/// opening apart from the commands that need the open session looked up.
pub fn begin_cash_action(action: &str, amount_cents: i64) -> (res: Result<CashStart, AppError>)
    ensures
        amount_cents < 0 ==> res == Err::<CashStart, AppError>(AppError::InvalidAmount),
        amount_cents >= 0 && action@ == "OPEN"@ ==> res == Ok::<CashStart, AppError>(
            CashStart::Open { opening_cents: amount_cents },
        ),
        amount_cents >= 0 && action@ != "OPEN"@ ==> res == Ok::<CashStart, AppError>(
            CashStart::NeedsSession,
        ),
{
    if amount_cents < 0 {
        return Err(AppError::InvalidAmount);
    }
    if crate::text::same_text(action, "OPEN") {
        Ok(CashStart::Open { opening_cents: amount_cents })
    } else {
        Ok(CashStart::NeedsSession)
    }
}

/// Decides a cash command given the open session, if any (which `OPEN` does
/// not need): a negative amount is refused; `OPEN` opens a session; the other
/// actions need an open session: `CLOSE` closes it, `IN` records money in, and
/// any other action records money out.
pub fn plan_cash_action(
    action: &str,
    amount_cents: i64,
    description: Option<String>,
    open_session: Option<i64>,
) -> (res: Result<CashOperation, AppError>)
    ensures
        amount_cents < 0 ==> res == Err::<CashOperation, AppError>(AppError::InvalidAmount),
        amount_cents >= 0 && action@ == "OPEN"@ ==> (res matches Ok(
            CashOperation::Open { opening_cents },
        ) && opening_cents == amount_cents),
        amount_cents >= 0 && action@ != "OPEN"@ && open_session is None ==> res == Err::<
            CashOperation,
            AppError,
        >(AppError::NoOpenCash),
        amount_cents >= 0 && action@ != "OPEN"@ && open_session is Some && action@ == "CLOSE"@ ==> (
        res matches Ok(CashOperation::Close { session_id }) && session_id == open_session.unwrap()),
        amount_cents >= 0 && action@ != "OPEN"@ && open_session is Some && action@ != "CLOSE"@ ==> (
        res matches Ok(CashOperation::Move(entry)) && entry.session_id == open_session.unwrap()
            && entry.amount_cents == amount_cents && entry.flow == (if action@ == "IN"@ {
            CashFlow::In
        } else {
            CashFlow::Out
        }) && entry.description@ == (match description {
            Some(d) => d@,
            None => default_description(),
        })),
{
    if amount_cents < 0 {
        return Err(AppError::InvalidAmount);
    }
    if crate::text::same_text(action, "OPEN") {
        return Ok(CashOperation::Open { opening_cents: amount_cents });
    }
    let id = match open_session {
        Some(id) => id,
        None => {
            return Err(AppError::NoOpenCash);
        },
    };
    if crate::text::same_text(action, "CLOSE") {
        return Ok(CashOperation::Close { session_id: id });
    }
    let flow = if crate::text::same_text(action, "IN") {
        CashFlow::In
    } else {
        CashFlow::Out
    };
    let text = match description {
        Some(d) => d,
        None => "Movimentação manual".to_owned(),
    };
    Ok(CashOperation::Move(CashEntry { session_id: id, flow, amount_cents, description: text }))
}

} // verus!
