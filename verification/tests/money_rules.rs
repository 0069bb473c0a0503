use gestor_comercial::accounts::{
    check_deletable, check_editable, plan_settlement, settlement_cash_entry, validate_account, AccountInput,
    AccountRow, SaveTarget, Settlement,
};
use gestor_comercial::cash::{begin_cash_action, plan_cash_action, CashFlow, CashOperation, CashStart};
use gestor_comercial::error::AppError;
use gestor_comercial::reports::average_ticket;
use gestor_comercial::sales::{
    check_sale_items, plan_sale, sale_amounts_fit, sale_cash_entry, sale_reference, ProductStock, SaleInput,
    SaleItemInput,
};

fn sale(items: &[(i64, i64)], discount: i64) -> SaleInput {
    SaleInput {
        customer_id: Some(4),
        payment_method: "PIX".to_string(),
        discount_cents: discount,
        items: items.iter().map(|&(product_id, quantity)| SaleItemInput { product_id, quantity }).collect(),
    }
}

fn row(stock: i64, price_cents: i64) -> Option<ProductStock> {
    Some(ProductStock { stock, price_cents })
}

#[test]
fn sales_need_items_and_an_open_cash_session() {
    let empty = sale(&[], 0);
    assert_eq!(check_sale_items(&empty).unwrap_err().message(), "Adicione ao menos um item.");
    assert_eq!(plan_sale(&empty, Some(1), &vec![]).unwrap_err(), AppError::EmptySale);
    let one = sale(&[(1, 1)], 0);
    assert!(check_sale_items(&one).is_ok());
    assert_eq!(plan_sale(&one, None, &vec![None]).unwrap_err(), AppError::CashClosed);
}

#[test]
fn sale_lines_are_checked_in_order() {
    let s = sale(&[(1, 2), (2, 0), (3, 1)], 0);
    assert_eq!(plan_sale(&s, Some(1), &vec![row(1, 100), row(5, 100), None]).unwrap_err(), AppError::InsufficientItemStock);
    assert_eq!(plan_sale(&s, Some(1), &vec![row(2, 100), row(5, 100), None]).unwrap_err(), AppError::InvalidQuantity);
    let s = sale(&[(1, 2), (3, 1)], 0);
    assert_eq!(plan_sale(&s, Some(1), &vec![row(2, 100), None]).unwrap_err().message(), "Produto indisponível.");
}

#[test]
fn sale_total_is_lines_less_discount_never_negative() {
    let s = sale(&[(1, 2), (2, 3)], 150);
    let rows = vec![row(10, 1250), row(3, 400)];
    assert!(sale_amounts_fit(&s, &rows));
    let plan = plan_sale(&s, Some(9), &rows).unwrap();
    assert_eq!(plan.cash_session_id, 9);
    assert_eq!(plan.total_cents, 2500 + 1200 - 150);
    assert_eq!(plan.lines.len(), 2);
    assert_eq!(plan.lines[1].total_cents, 1200);
    assert_eq!(plan.lines[1].unit_price_cents, 400);
    assert_eq!(plan.lines[1].stock_change, -3);
    assert_eq!(plan.payment_method, "PIX");
    let s = sale(&[(1, 1)], 5000);
    let plan = plan_sale(&s, Some(9), &vec![row(1, 1000)]).unwrap();
    assert_eq!(plan.total_cents, 0);
    let entry = sale_cash_entry(&plan, 17);
    assert_eq!(entry.flow, CashFlow::Sale);
    assert_eq!(entry.flow.label_text(), "SALE");
    assert_eq!(entry.description, "Venda #17");
    assert_eq!(entry.session_id, 9);
}

#[test]
fn sale_references_are_distinct() {
    assert_eq!(sale_reference(42), "Venda #42");
    assert_ne!(sale_reference(42), sale_reference(-42));
    assert_ne!(sale_reference(4), sale_reference(42));
}

#[test]
fn sale_amounts_that_overflow_are_detected() {
    let s = sale(&[(1, 2)], 0);
    assert!(!sale_amounts_fit(&s, &vec![row(5, i64::MAX)]));
    let s = sale(&[(1, 1)], i64::MIN);
    assert!(!sale_amounts_fit(&s, &vec![row(5, 1)]));
    let s = sale(&[(1, 0), (2, 2)], 0);
    assert!(sale_amounts_fit(&s, &vec![row(5, 1), row(5, i64::MAX)]));
}

#[test]
fn cash_commands() {
    assert_eq!(begin_cash_action("OPEN", -1).unwrap_err().message(), "Valor inválido.");
    assert_eq!(begin_cash_action("OPEN", 5000).unwrap(), CashStart::Open { opening_cents: 5000 });
    assert_eq!(begin_cash_action("CLOSE", 0).unwrap(), CashStart::NeedsSession);
    assert_eq!(plan_cash_action("CLOSE", 0, None, None).unwrap_err(), AppError::NoOpenCash);
    assert_eq!(plan_cash_action("IN", -5, None, Some(3)).unwrap_err(), AppError::InvalidAmount);
    assert!(matches!(plan_cash_action("OPEN", 100, None, None).unwrap(), CashOperation::Open { opening_cents: 100 }));
    assert!(matches!(plan_cash_action("CLOSE", 0, None, Some(3)).unwrap(), CashOperation::Close { session_id: 3 }));
    match plan_cash_action("IN", 700, None, Some(3)).unwrap() {
        CashOperation::Move(e) => {
            assert_eq!(e.flow, CashFlow::In);
            assert_eq!(e.amount_cents, 700);
            assert_eq!(e.description, "Movimentação manual");
        }
        other => panic!("unexpected {:?}", other),
    }
    match plan_cash_action("SANGRIA", 200, Some("troco".to_string()), Some(3)).unwrap() {
        CashOperation::Move(e) => {
            assert_eq!(e.flow, CashFlow::Out);
            assert_eq!(e.flow.label_text(), "OUT");
            assert_eq!(e.description, "troco");
        }
        other => panic!("unexpected {:?}", other),
    }
}

fn account(kind: &str, description: &str, due: &str, amount: i64) -> AccountInput {
    AccountInput {
        id: None,
        kind: kind.to_string(),
        description: description.to_string(),
        person_name: None,
        category: None,
        due_date: due.to_string(),
        amount_cents: amount,
    }
}

#[test]
fn accounts_are_validated() {
    assert_eq!(validate_account(&account("PAYABLE", " ", "2026-09-10", 10)).unwrap_err(), AppError::MissingAccountFields);
    assert_eq!(validate_account(&account("PAYABLE", "Luz", "", 10)).unwrap_err(), AppError::MissingAccountFields);
    assert_eq!(validate_account(&account("PAYABLE", "Luz", "2026-09-10", 0)).unwrap_err(), AppError::NonPositiveAmount);
    assert_eq!(
        validate_account(&account("OTHER", "Luz", "2026-09-10", 10)).unwrap_err().message(),
        "Tipo de conta inválido."
    );
    assert_eq!(validate_account(&account("RECEIVABLE", "Venda", "2026-09-10", 1590)).unwrap(), SaveTarget::Insert);
    let mut a = account("PAYABLE", "Compra de mercadorias", "2026-09-10", 1590);
    a.id = Some(2);
    assert_eq!(validate_account(&a).unwrap(), SaveTarget::Update(2));
}

#[test]
fn only_pending_accounts_change() {
    assert_eq!(check_editable(None).unwrap_err(), AppError::AccountNotFound);
    assert_eq!(check_editable(Some("PAID")).unwrap_err(), AppError::AccountNotEditable);
    assert!(check_editable(Some("PENDING")).is_ok());
    assert_eq!(check_deletable(Some("CANCELED")).unwrap_err().message(), "Somente contas pendentes podem ser excluídas.");
    assert!(check_deletable(Some("PENDING")).is_ok());
}

fn stored(kind: &str, status: &str) -> AccountRow {
    AccountRow { kind: kind.to_string(), description: "Aluguel".to_string(), amount_cents: 90000, status: status.to_string() }
}

#[test]
fn settling_accounts() {
    assert_eq!(plan_settlement(None, "PAY").unwrap_err(), AppError::AccountNotFound);
    assert_eq!(plan_settlement(Some(stored("PAYABLE", "PAID")), "PAY").unwrap_err(), AppError::AccountAlreadyProcessed);
    assert_eq!(plan_settlement(Some(stored("PAYABLE", "PENDING")), "RECEIVE").unwrap_err(), AppError::IncompatibleAction);
    let cancel = plan_settlement(Some(stored("RECEIVABLE", "PENDING")), "CANCEL").unwrap();
    assert_eq!(cancel.status_text(), "CANCELED");
    assert!(settlement_cash_entry(cancel, Some(1)).is_none());
    let paid = plan_settlement(Some(stored("PAYABLE", "PENDING")), "PAY").unwrap();
    assert_eq!(paid.status_text(), "PAID");
    let entry = settlement_cash_entry(paid, Some(5)).unwrap();
    assert_eq!(entry.flow, CashFlow::Out);
    assert_eq!(entry.amount_cents, 90000);
    assert_eq!(entry.description, "Financeiro: Aluguel");
    let received = plan_settlement(Some(stored("RECEIVABLE", "PENDING")), "RECEIVE").unwrap();
    assert_eq!(received.status_text(), "RECEIVED");
    assert!(matches!(received, Settlement::Settle { paid: false, .. }));
    assert!(settlement_cash_entry(received, None).is_none());
}

#[test]
fn a_settled_account_stays_settled() {
    for action in ["PAY", "CANCEL"] {
        let s = plan_settlement(Some(stored("PAYABLE", "PENDING")), action).unwrap();
        let after = stored("PAYABLE", &s.status_text());
        for again in ["PAY", "RECEIVE", "CANCEL"] {
            assert_eq!(plan_settlement(Some(stored("PAYABLE", &after.status)), again).unwrap_err(), AppError::AccountAlreadyProcessed);
        }
    }
}

#[test]
fn average_ticket_rounds_toward_zero() {
    assert_eq!(average_ticket(1000, 3), 333);
    assert_eq!(average_ticket(1000, 0), 0);
    assert_eq!(average_ticket(-7, 2), -3);
    assert_eq!(average_ticket(0, 5), 0);
}
