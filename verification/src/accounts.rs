use vstd::prelude::*;
use crate::cash::{CashEntry, CashFlow};
use crate::error::AppError;
use crate::text::{blank, is_blank, join, same_text};

verus! {

/// Where a saved record goes: over an existing row, or into a new one.
#[derive(Debug, Clone, Copy, PartialEq, Eq, Structural)]
pub enum SaveTarget {
    Update(i64),
    Insert,
}

/// The target that an optional id selects.
pub open spec fn target_of(id: Option<i64>) -> SaveTarget {
    match id {
        Some(i) => SaveTarget::Update(i),
        None => SaveTarget::Insert,
    }
}

pub fn save_target(id: Option<i64>) -> (res: SaveTarget)
    ensures
        res == target_of(id),
{
    match id {
        Some(i) => SaveTarget::Update(i),
        None => SaveTarget::Insert,
    }
}

/// An account to pay or to receive, as the user enters it.
#[derive(Debug)]
pub struct AccountInput {
    pub id: Option<i64>,
    pub kind: String,
    pub description: String,
    pub person_name: Option<String>,
    pub category: Option<String>,
    pub due_date: String,
    pub amount_cents: i64,
}

/// The stored fields of an account that settling reads.
#[derive(Debug)]
pub struct AccountRow {
    pub kind: String,
    pub description: String,
    pub amount_cents: i64,
    pub status: String,
}

/// Why an account input is refused, if it is.
pub open spec fn account_input_error(input: AccountInput) -> Option<AppError> {
    if is_blank(input.description@) || is_blank(input.due_date@) {
        Some(AppError::MissingAccountFields)
    } else if input.amount_cents <= 0 {
        Some(AppError::NonPositiveAmount)
    } else if input.kind@ != "PAYABLE"@ && input.kind@ != "RECEIVABLE"@ {
        Some(AppError::InvalidAccountKind)
    } else {
        None
    }
}

/// Checks an account before it is saved, and tells whether it updates an
/// existing account or creates a new one.
pub fn validate_account(input: &AccountInput) -> (res: Result<SaveTarget, AppError>)
    ensures
        match account_input_error(*input) {
            Some(e) => res == Err::<SaveTarget, AppError>(e),
            None => res == Ok::<SaveTarget, AppError>(target_of(input.id)),
        },
        res is Ok <==> (!is_blank(input.description@) && !is_blank(input.due_date@)
            && input.amount_cents > 0 && (input.kind@ == "PAYABLE"@ || input.kind@ == "RECEIVABLE"@)),
{
    if blank(input.description.as_str()) || blank(input.due_date.as_str()) {
        return Err(AppError::MissingAccountFields);
    }
    if input.amount_cents <= 0 {
        return Err(AppError::NonPositiveAmount);
    }
    if !same_text(input.kind.as_str(), "PAYABLE") && !same_text(input.kind.as_str(), "RECEIVABLE") {
        return Err(AppError::InvalidAccountKind);
    }
    Ok(save_target(input.id))
}

/// Whether an account may still be edited or deleted: it must exist and be pending.
pub open spec fn pending_check(status: Option<Seq<char>>, refusal: AppError) -> Result<(), AppError> {
    match status {
        None => Err(AppError::AccountNotFound),
        Some(s) => if s == "PENDING"@ {
            Ok(())
        } else {
            Err(refusal)
        },
    }
}

fn check_pending(status: Option<&str>, refusal: AppError) -> (res: Result<(), AppError>)
    ensures
        res == pending_check(
            match status {
                Some(s) => Some(s@),
                None => None,
            },
            refusal,
        ),
{
    match status {
        None => Err(AppError::AccountNotFound),
        Some(s) => if same_text(s, "PENDING") {
            Ok(())
        } else {
            Err(refusal)
        },
    }
}

/// An account may be edited only while it is pending. `status` is the stored
/// status of the account, or `None` when there is no such account.
pub fn check_editable(status: Option<&str>) -> (res: Result<(), AppError>)
    ensures
        res == pending_check(
            match status {
                Some(s) => Some(s@),
                None => None,
            },
            AppError::AccountNotEditable,
        ),
        res is Ok <==> (status is Some && status.unwrap()@ == "PENDING"@),
        status is None ==> res == Err::<(), AppError>(AppError::AccountNotFound),
        status is Some && status.unwrap()@ != "PENDING"@ ==> res == Err::<(), AppError>(
            AppError::AccountNotEditable,
        ),
{
    check_pending(status, AppError::AccountNotEditable)
}

/// An account may be deleted only while it is pending. `status` is the stored
/// status of the account, or `None` when there is no such account.
pub fn check_deletable(status: Option<&str>) -> (res: Result<(), AppError>)
    ensures
        res == pending_check(
            match status {
                Some(s) => Some(s@),
                None => None,
            },
            AppError::AccountNotDeletable,
        ),
        res is Ok <==> (status is Some && status.unwrap()@ == "PENDING"@),
        status is None ==> res == Err::<(), AppError>(AppError::AccountNotFound),
        status is Some && status.unwrap()@ != "PENDING"@ ==> res == Err::<(), AppError>(
            AppError::AccountNotDeletable,
        ),
{
    check_pending(status, AppError::AccountNotDeletable)
}

/// What settling a pending account does.
#[derive(Debug)]
pub enum Settlement {
    /// The account is canceled; no money moves.
    Cancel,
    /// The account is paid or received; money leaves or enters the open cash session.
    Settle { paid: bool, amount_cents: i64, description: String },
}

/// The meaning of a settlement, with its movement text as a sequence of characters.
pub enum SettlementView {
    Cancel,
    Settle { paid: bool, amount_cents: i64, note: Seq<char> },
}

impl View for Settlement {
    type V = SettlementView;

    open spec fn view(&self) -> SettlementView {
        match self {
            Settlement::Cancel => SettlementView::Cancel,
            Settlement::Settle { paid, amount_cents, description } => SettlementView::Settle {
                paid: *paid,
                amount_cents: *amount_cents,
                note: description@,
            },
        }
    }
}

/// The status an account takes when a settlement is applied to it.
pub open spec fn status_after(s: SettlementView) -> Seq<char> {
    match s {
        SettlementView::Cancel => "CANCELED"@,
        SettlementView::Settle { paid, .. } => if paid {
            "PAID"@
        } else {
            "RECEIVED"@
        },
    }
}

impl Settlement {
    /// The status the account takes.
    pub fn status_text(&self) -> (res: String)
        ensures
            res@ == status_after(self@),
    {
        match self {
            Settlement::Cancel => "CANCELED".to_owned(),
            Settlement::Settle { paid, .. } => if *paid {
                "PAID".to_owned()
            } else {
                "RECEIVED".to_owned()
            },
        }
    }
}

/// The action that settles an account of the given kind.
pub open spec fn expected_action(kind: Seq<char>) -> Seq<char> {
    if kind == "PAYABLE"@ {
        "PAY"@
    } else {
        "RECEIVE"@
    }
}

/// The text of the cash movement that settling records.
pub open spec fn settlement_note(description: Seq<char>) -> Seq<char> {
    "Financeiro: "@ + description
}

/// The outcome of settling `row` (or a missing account, `None`) with `action`.
pub open spec fn settlement_outcome(row: Option<AccountRow>, action: Seq<char>) -> Result<
    SettlementView,
    AppError,
> {
    match row {
        None => Err(AppError::AccountNotFound),
        Some(r) => if r.status@ != "PENDING"@ {
            Err(AppError::AccountAlreadyProcessed)
        } else if action == "CANCEL"@ {
            Ok(SettlementView::Cancel)
        } else if action != expected_action(r.kind@) {
            Err(AppError::IncompatibleAction)
        } else {
            Ok(
                SettlementView::Settle {
                    paid: r.kind@ == "PAYABLE"@,
                    amount_cents: r.amount_cents,
                    note: settlement_note(r.description@),
                },
            )
        },
    }
}

/// Decides what `action` does to an account (`None` when there is no such
/// account): only a pending account can be settled; `CANCEL` cancels it; a
/// payable is paid with `PAY`, anything else is received with `RECEIVE`.
pub fn plan_settlement(row: Option<AccountRow>, action: &str) -> (res: Result<Settlement, AppError>)
    ensures
        match res {
            Ok(s) => settlement_outcome(row, action@) == Ok::<SettlementView, AppError>(s@),
            Err(e) => settlement_outcome(row, action@) == Err::<SettlementView, AppError>(e),
        },
        res is Ok ==> row is Some && row.unwrap().status@ == "PENDING"@,
        res matches Ok(Settlement::Cancel) ==> action@ == "CANCEL"@,
        res matches Ok(Settlement::Settle { paid, amount_cents, .. }) ==> {
            &&& amount_cents == row.unwrap().amount_cents
            &&& paid ==> action@ == "PAY"@ && row.unwrap().kind@ == "PAYABLE"@
            &&& !paid ==> action@ == "RECEIVE"@ && row.unwrap().kind@ != "PAYABLE"@
        },
        row is Some && row.unwrap().status@ == "PENDING"@ && action@ != "CANCEL"@ && action@
            != expected_action(row.unwrap().kind@) ==> res == Err::<Settlement, AppError>(
            AppError::IncompatibleAction,
        ),
{
    proof {
        lemma_action_names_distinct();
    }
    let r = match row {
        None => {
            return Err(AppError::AccountNotFound);
        },
        Some(r) => r,
    };
    if !same_text(r.status.as_str(), "PENDING") {
        return Err(AppError::AccountAlreadyProcessed);
    }
    if same_text(action, "CANCEL") {
        return Ok(Settlement::Cancel);
    }
    let payable = same_text(r.kind.as_str(), "PAYABLE");
    let expected = if payable {
        "PAY"
    } else {
        "RECEIVE"
    };
    if !same_text(action, expected) {
        return Err(AppError::IncompatibleAction);
    }
    let description = join("Financeiro: ", r.description.as_str());
    Ok(Settlement::Settle { paid: payable, amount_cents: r.amount_cents, description })
}

/// The cash movement that a settlement records when a cash session is open:
/// a payment takes money out, a receipt puts money in; a cancellation moves nothing.
pub fn settlement_cash_entry(s: Settlement, open_session: Option<i64>) -> (res: Option<CashEntry>)
    ensures
        match (s, open_session) {
            (Settlement::Settle { paid, amount_cents, description }, Some(id)) => res matches Some(
                e,
            ) && e.session_id == id && e.amount_cents == amount_cents && e.description
                == description && e.flow == (if paid {
                CashFlow::Out
            } else {
                CashFlow::In
            }),
            _ => res is None,
        },
{
    match (s, open_session) {
        (Settlement::Settle { paid, amount_cents, description }, Some(id)) => {
            let flow = if paid {
                CashFlow::Out
            } else {
                CashFlow::In
            };
            Some(CashEntry { session_id: id, flow, amount_cents, description })
        },
        _ => None,
    }
}

/// A settled account is final: once `action` has settled or canceled an account,
/// the account in its new status is refused by every later settlement.
pub proof fn lemma_settlement_is_final(row: AccountRow, action: Seq<char>, again: Seq<char>, after: AccountRow)
    requires
        settlement_outcome(Some(row), action) is Ok,
        after.status@ == status_after(settlement_outcome(Some(row), action)->Ok_0),
    ensures
        settlement_outcome(Some(after), again) == Err::<SettlementView, AppError>(
            AppError::AccountAlreadyProcessed,
        ),
{
    reveal_strlit("PENDING");
    reveal_strlit("CANCELED");
    reveal_strlit("PAID");
    reveal_strlit("RECEIVED");
    assert("PENDING"@[1] != "CANCELED"@[1]);
    assert("PENDING"@[1] != "PAID"@[1]);
    assert("PENDING"@[0] != "RECEIVED"@[0]);
}

/// Only a pending account is ever settled, and what is paid or received is the
/// amount of the account: a payable leaves as `PAID`, a receivable as `RECEIVED`.
pub proof fn lemma_settlement_follows_kind(row: AccountRow, action: Seq<char>)
    requires
        settlement_outcome(Some(row), action) is Ok,
    ensures
        row.status@ == "PENDING"@,
        settlement_outcome(Some(row), action) matches Ok(SettlementView::Settle { paid, amount_cents, .. })
            ==> amount_cents == row.amount_cents && (paid <==> row.kind@ == "PAYABLE"@) && action
            == expected_action(row.kind@),
{
}

proof fn lemma_action_names_distinct()
    ensures
        "CANCEL"@ != "PAY"@,
        "CANCEL"@ != "RECEIVE"@,
        "PAY"@ != "RECEIVE"@,
        "PENDING"@ != "PAID"@,
        "PENDING"@ != "RECEIVED"@,
        "PENDING"@ != "CANCELED"@,
{
    reveal_strlit("CANCEL");
    reveal_strlit("PAY");
    reveal_strlit("RECEIVE");
    reveal_strlit("PENDING");
    reveal_strlit("PAID");
    reveal_strlit("RECEIVED");
    reveal_strlit("CANCELED");
    assert("CANCEL"@.len() != "PAY"@.len());
    assert("CANCEL"@.len() != "RECEIVE"@.len());
    assert("PAY"@.len() != "RECEIVE"@.len());
    assert("PENDING"@[1] != "PAID"@[1]);
    assert("PENDING"@[0] != "RECEIVED"@[0]);
    assert("PENDING"@[1] != "CANCELED"@[1]);
}

/// Only a pending account may be edited or deleted: the check passes exactly
/// for the status `PENDING`, refuses every other status with the given
/// refusal, and refuses a missing account as not found.
pub proof fn lemma_only_pending_accounts_change(status: Seq<char>, refusal: AppError)
    ensures
        pending_check(Some(status), refusal) is Ok <==> status == "PENDING"@,
        status != "PENDING"@ ==> pending_check(Some(status), refusal) == Err::<(), AppError>(
            refusal,
        ),
        pending_check(None, refusal) == Err::<(), AppError>(AppError::AccountNotFound),
{
}

/// What each action does to a pending account: only `CANCEL` cancels; `PAY`
/// pays a payable and `RECEIVE` receives any other account, for its own
/// amount; every other action, or the action of the other kind, is refused
/// as incompatible.
pub proof fn lemma_settlement_by_action(row: AccountRow, action: Seq<char>)
    requires
        row.status@ == "PENDING"@,
    ensures
        settlement_outcome(Some(row), action) == Ok::<SettlementView, AppError>(
            SettlementView::Cancel,
        ) <==> action == "CANCEL"@,
        action == "PAY"@ && row.kind@ == "PAYABLE"@ ==> (settlement_outcome(Some(row), action)
            matches Ok(SettlementView::Settle { paid: true, amount_cents, .. }) && amount_cents
            == row.amount_cents),
        action == "RECEIVE"@ && row.kind@ != "PAYABLE"@ ==> (settlement_outcome(Some(row), action)
            matches Ok(SettlementView::Settle { paid: false, amount_cents, .. }) && amount_cents
            == row.amount_cents),
        action != "CANCEL"@ && action != "PAY"@ && action != "RECEIVE"@ ==> settlement_outcome(
            Some(row),
            action,
        ) == Err::<SettlementView, AppError>(AppError::IncompatibleAction),
        action == "PAY"@ && row.kind@ != "PAYABLE"@ ==> settlement_outcome(Some(row), action)
            == Err::<SettlementView, AppError>(AppError::IncompatibleAction),
        action == "RECEIVE"@ && row.kind@ == "PAYABLE"@ ==> settlement_outcome(Some(row), action)
            == Err::<SettlementView, AppError>(AppError::IncompatibleAction),
{
    lemma_action_names_distinct();
}

} // verus!
