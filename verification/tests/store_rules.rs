use gestor_comercial::accounts::SaveTarget;
use gestor_comercial::error::AppError;
use gestor_comercial::records::{
    delete_error, delete_target, list_source, plan_save_record, product_insert_error, search_term, PersonKind,
    RecordInput, RecordList, RecordSave, RecordTable,
};
use gestor_comercial::stock::{check_stock_quantity, plan_stock_move, stock_move_fits, StockInput};

fn record(name: &str) -> RecordInput {
    RecordInput {
        id: None,
        name: name.to_string(),
        code: None,
        phone: None,
        email: None,
        notes: None,
        category: None,
        supplier_id: None,
        cost_cents: None,
        price_cents: None,
        stock: None,
        minimum_stock: None,
        active: None,
    }
}

#[test]
fn listings_by_module() {
    assert_eq!(list_source("products").unwrap(), RecordList::Products);
    assert_eq!(list_source("cash").unwrap(), RecordList::Cash);
    assert!(list_source("accounts").unwrap().uses_search());
    assert!(!list_source("stock").unwrap().uses_search());
    let err = list_source("users").unwrap_err();
    assert_eq!(err.message(), "Módulo inválido");
    assert_eq!(search_term(None), "%%");
    assert_eq!(search_term(Some("arroz".to_string())), "%arroz%");
}

#[test]
fn saving_needs_a_name() {
    let err = plan_save_record("products", &record("   ")).unwrap_err();
    assert_eq!(err, AppError::MissingName);
    assert_eq!(err.message(), "Informe o nome.");
    assert_eq!(plan_save_record("users", &record("   ")).unwrap_err(), AppError::MissingName);
    assert_eq!(plan_save_record("users", &record("X")).unwrap_err(), AppError::InvalidRecordKind);
}

#[test]
fn products_need_a_sku_and_no_negative_amounts() {
    let mut r = record("Café");
    assert_eq!(plan_save_record("products", &r).unwrap_err(), AppError::MissingSku);
    r.code = Some(" ".to_string());
    assert_eq!(plan_save_record("products", &r).unwrap_err(), AppError::MissingSku);
    r.code = Some("CAF-1".to_string());
    r.price_cents = Some(-1);
    assert_eq!(plan_save_record("products", &r).unwrap_err(), AppError::InvalidValues);
    r.price_cents = Some(1290);
    r.cost_cents = Some(-5);
    assert_eq!(plan_save_record("products", &r).unwrap_err().message(), "Valores inválidos.");
}

#[test]
fn product_defaults() {
    let mut r = record("Café");
    r.code = Some("CAF-1".to_string());
    r.price_cents = Some(1290);
    r.active = Some(false);
    r.id = Some(8);
    match plan_save_record("products", &r).unwrap() {
        RecordSave::Product { target, product } => {
            assert_eq!(target, SaveTarget::Update(8));
            assert_eq!(product.sku, "CAF-1");
            assert_eq!(product.cost_cents, 0);
            assert_eq!(product.price_cents, 1290);
            assert_eq!(product.stock, 0);
            assert_eq!(product.minimum_stock, 0);
            assert_eq!(product.active, 0);
        }
        other => panic!("unexpected {:?}", other),
    }
    r.active = None;
    r.id = None;
    match plan_save_record("products", &r).unwrap() {
        RecordSave::Product { target, product } => {
            assert_eq!(target, SaveTarget::Insert);
            assert_eq!(product.active, 1);
        }
        other => panic!("unexpected {:?}", other),
    }
}

#[test]
fn people_keep_their_contact_only_as_suppliers() {
    let mut r = record("Maria");
    r.code = Some("João".to_string());
    r.phone = Some("1199".to_string());
    match plan_save_record("suppliers", &r).unwrap() {
        RecordSave::Person { person, .. } => {
            assert_eq!(person.kind, PersonKind::Supplier);
            assert_eq!(person.contact.as_deref(), Some("João"));
            assert_eq!(person.phone.as_deref(), Some("1199"));
        }
        other => panic!("unexpected {:?}", other),
    }
    match plan_save_record("customers", &r).unwrap() {
        RecordSave::Person { person, target } => {
            assert_eq!(person.kind, PersonKind::Customer);
            assert_eq!(person.contact, None);
            assert_eq!(target, SaveTarget::Insert);
        }
        other => panic!("unexpected {:?}", other),
    }
}

#[test]
fn deleting_records() {
    assert_eq!(delete_target("customers").unwrap(), RecordTable::Customers);
    assert_eq!(delete_target("customers").unwrap().table_name(), "customers");
    assert_eq!(delete_target("sales").unwrap_err(), AppError::InvalidRecordKind);
    assert_eq!(delete_error("FOREIGN KEY constraint failed"), AppError::RecordInUse);
    assert_eq!(
        delete_error("FOREIGN KEY constraint failed").message(),
        "Este registro possui movimentações e não pode ser excluído."
    );
    assert_eq!(delete_error("database is locked"), AppError::Database("database is locked".to_string()));
    assert_eq!(product_insert_error("UNIQUE constraint failed: products.sku"), AppError::SkuInUse);
    assert_eq!(product_insert_error("disk I/O error").message(), "disk I/O error");
}

fn movement(kind: &str, quantity: i64) -> StockInput {
    StockInput { product_id: 1, quantity, kind: kind.to_string(), reason: "ajuste".to_string() }
}

#[test]
fn stock_movements() {
    assert_eq!(check_stock_quantity(0).unwrap_err().message(), "Quantidade deve ser maior que zero.");
    assert!(check_stock_quantity(1).is_ok());
    assert_eq!(plan_stock_move(&movement("IN", 0), Some(3)).unwrap_err(), AppError::NonPositiveQuantity);
    assert_eq!(plan_stock_move(&movement("IN", 5), None).unwrap_err(), AppError::ProductNotFound);
    assert_eq!(plan_stock_move(&movement("IN", 5), Some(3)).unwrap(), 5);
    assert_eq!(plan_stock_move(&movement("OUT", 3), Some(3)).unwrap(), -3);
    assert_eq!(plan_stock_move(&movement("ADJUSTMENT", 2), Some(3)).unwrap(), -2);
    assert_eq!(plan_stock_move(&movement("OUT", 4), Some(3)).unwrap_err(), AppError::InsufficientStock);
    assert!(stock_move_fits(&movement("IN", 1), Some(3)));
    assert!(!stock_move_fits(&movement("IN", 1), Some(i64::MAX)));
    assert!(stock_move_fits(&movement("OUT", 1), Some(i64::MAX)));
}
