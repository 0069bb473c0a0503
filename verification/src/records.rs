use vstd::prelude::*;
use crate::accounts::{save_target, target_of, SaveTarget};
use crate::error::AppError;
use crate::text::{blank, contains, contains_text, is_blank, like_pattern, like_text, same_text};

verus! {

/// A product, customer or supplier as the user enters it. `code` is the SKU
/// of a product and the contact of a supplier.
#[derive(Debug)]
pub struct RecordInput {
    pub id: Option<i64>,
    pub name: String,
    pub code: Option<String>,
    pub phone: Option<String>,
    pub email: Option<String>,
    pub notes: Option<String>,
    pub category: Option<String>,
    pub supplier_id: Option<i64>,
    pub cost_cents: Option<i64>,
    pub price_cents: Option<i64>,
    pub stock: Option<i64>,
    pub minimum_stock: Option<i64>,
    pub active: Option<bool>,
}

/// The listings the application offers.
#[derive(Debug, Clone, Copy, PartialEq, Eq, Structural)]
pub enum RecordList {
    Products,
    Customers,
    Suppliers,
    Stock,
    Sales,
    Accounts,
    Cash,
}

impl RecordList {
    /// The name of the module whose listing this is.
    pub open spec fn module(self) -> Seq<char> {
        match self {
            RecordList::Products => "products"@,
            RecordList::Customers => "customers"@,
            RecordList::Suppliers => "suppliers"@,
            RecordList::Stock => "stock"@,
            RecordList::Sales => "sales"@,
            RecordList::Accounts => "accounts"@,
            RecordList::Cash => "cash"@,
        }
    }

    /// Whether the listing filters by the search text.
    pub open spec fn searches(self) -> bool {
        match self {
            RecordList::Products | RecordList::Customers | RecordList::Suppliers
            | RecordList::Accounts => true,
            _ => false,
        }
    }

    /// Whether the listing filters by the search text.
    pub fn uses_search(&self) -> (res: bool)
        ensures
            res == self.searches(),
    {
        match self {
            RecordList::Products | RecordList::Customers | RecordList::Suppliers
            | RecordList::Accounts => true,
            _ => false,
        }
    }
}

/// The listing a module name selects.
pub open spec fn list_of(entity: Seq<char>) -> Option<RecordList> {
    if entity == "products"@ {
        Some(RecordList::Products)
    } else if entity == "customers"@ {
        Some(RecordList::Customers)
    } else if entity == "suppliers"@ {
        Some(RecordList::Suppliers)
    } else if entity == "stock"@ {
        Some(RecordList::Stock)
    } else if entity == "sales"@ {
        Some(RecordList::Sales)
    } else if entity == "accounts"@ {
        Some(RecordList::Accounts)
    } else if entity == "cash"@ {
        Some(RecordList::Cash)
    } else {
        None
    }
}

/// Chooses the listing of a module, refusing an unknown module.
pub fn list_source(entity: &str) -> (res: Result<RecordList, AppError>)
    ensures
        match list_of(entity@) {
            Some(l) => res == Ok::<RecordList, AppError>(l),
            None => res == Err::<RecordList, AppError>(AppError::InvalidModule),
        },
        res matches Ok(l) ==> l.module() == entity@,
        res is Err ==> forall|l: RecordList| l.module() != entity@,
{
    proof {
        lemma_module_names_distinct();
    }
    if same_text(entity, "products") {
        Ok(RecordList::Products)
    } else if same_text(entity, "customers") {
        Ok(RecordList::Customers)
    } else if same_text(entity, "suppliers") {
        Ok(RecordList::Suppliers)
    } else if same_text(entity, "stock") {
        Ok(RecordList::Stock)
    } else if same_text(entity, "sales") {
        Ok(RecordList::Sales)
    } else if same_text(entity, "accounts") {
        Ok(RecordList::Accounts)
    } else if same_text(entity, "cash") {
        Ok(RecordList::Cash)
    } else {
        Err(AppError::InvalidModule)
    }
}

/// The `LIKE` pattern of a search: the search text (empty when there is
/// none) wrapped in `%`.
pub fn search_term(search: Option<String>) -> (res: String)
    ensures
        res@ == like_text(
            match search {
                Some(s) => s@,
                None => Seq::empty(),
            },
        ),
{
    match search {
        Some(s) => like_pattern(s.as_str()),
        None => {
            proof {
                reveal_strlit("");
            }
            like_pattern("")
        },
    }
}

/// The tables whose rows can be deleted from the application.
#[derive(Debug, Clone, Copy, PartialEq, Eq, Structural)]
pub enum RecordTable {
    Products,
    Customers,
    Suppliers,
}

impl RecordTable {
    pub open spec fn name(self) -> Seq<char> {
        match self {
            RecordTable::Products => "products"@,
            RecordTable::Customers => "customers"@,
            RecordTable::Suppliers => "suppliers"@,
        }
    }

    /// The name of the table.
    pub fn table_name(&self) -> (res: String)
        ensures
            res@ == self.name(),
    {
        match self {
            RecordTable::Products => "products".to_owned(),
            RecordTable::Customers => "customers".to_owned(),
            RecordTable::Suppliers => "suppliers".to_owned(),
        }
    }
}

/// The table a kind of record names.
pub open spec fn table_of(entity: Seq<char>) -> Option<RecordTable> {
    if entity == "products"@ {
        Some(RecordTable::Products)
    } else if entity == "customers"@ {
        Some(RecordTable::Customers)
    } else if entity == "suppliers"@ {
        Some(RecordTable::Suppliers)
    } else {
        None
    }
}

/// Chooses the table a record is deleted from, refusing an unknown kind.
pub fn delete_target(entity: &str) -> (res: Result<RecordTable, AppError>)
    ensures
        match table_of(entity@) {
            Some(t) => res == Ok::<RecordTable, AppError>(t),
            None => res == Err::<RecordTable, AppError>(AppError::InvalidRecordKind),
        },
        res matches Ok(t) ==> t.name() == entity@,
        res is Err ==> forall|t: RecordTable| t.name() != entity@,
{
    proof {
        lemma_module_names_distinct();
    }
    if same_text(entity, "products") {
        Ok(RecordTable::Products)
    } else if same_text(entity, "customers") {
        Ok(RecordTable::Customers)
    } else if same_text(entity, "suppliers") {
        Ok(RecordTable::Suppliers)
    } else {
        Err(AppError::InvalidRecordKind)
    }
}

/// The error a failed deletion reports: a record that others refer to
/// (a foreign key failure) cannot be deleted; any other failure keeps its text.
pub fn delete_error(message: &str) -> (res: AppError)
    ensures
        contains_text(message@, "FOREIGN KEY"@) ==> res == AppError::RecordInUse,
        !contains_text(message@, "FOREIGN KEY"@) ==> (res matches AppError::Database(m) && m@
            == message@),
{
    if contains(message, "FOREIGN KEY") {
        AppError::RecordInUse
    } else {
        AppError::Database(message.to_owned())
    }
}

/// The error a failed product insertion reports: a repeated SKU (a uniqueness
/// failure) has its own message; any other failure keeps its text.
pub fn product_insert_error(message: &str) -> (res: AppError)
    ensures
        contains_text(message@, "UNIQUE"@) ==> res == AppError::SkuInUse,
        !contains_text(message@, "UNIQUE"@) ==> (res matches AppError::Database(m) && m@
            == message@),
{
    if contains(message, "UNIQUE") {
        AppError::SkuInUse
    } else {
        AppError::Database(message.to_owned())
    }
}

/// The stored fields of a product.
#[derive(Debug)]
pub struct ProductFields {
    pub name: String,
    pub sku: String,
    pub category: Option<String>,
    pub supplier_id: Option<i64>,
    pub cost_cents: i64,
    pub price_cents: i64,
    pub stock: i64,
    pub minimum_stock: i64,
    /// 1 for an active product, 0 for an inactive one.
    pub active: i64,
}

/// Customers and suppliers.
#[derive(Debug, Clone, Copy, PartialEq, Eq, Structural)]
pub enum PersonKind {
    Customer,
    Supplier,
}

/// The stored fields of a customer or supplier; only a supplier has a contact.
#[derive(Debug)]
pub struct PersonFields {
    pub kind: PersonKind,
    pub name: String,
    pub contact: Option<String>,
    pub phone: Option<String>,
    pub email: Option<String>,
    pub notes: Option<String>,
}

/// What saving a record writes.
#[derive(Debug)]
pub enum RecordSave {
    Product { target: SaveTarget, product: ProductFields },
    Person { target: SaveTarget, person: PersonFields },
}

pub open spec fn or_zero(v: Option<i64>) -> i64 {
    match v {
        Some(x) => x,
        None => 0,
    }
}

pub open spec fn text_or_empty(v: Option<String>) -> Seq<char> {
    match v {
        Some(s) => s@,
        None => Seq::empty(),
    }
}

pub open spec fn same_opt_text(a: Option<String>, b: Option<String>) -> bool {
    match (a, b) {
        (Some(x), Some(y)) => x@ == y@,
        (None, None) => true,
        _ => false,
    }
}

/// Why saving a record is refused, if it is.
pub open spec fn record_save_error(entity: Seq<char>, input: RecordInput) -> Option<AppError> {
    if is_blank(input.name@) {
        Some(AppError::MissingName)
    } else if entity == "products"@ {
        if is_blank(text_or_empty(input.code)) {
            Some(AppError::MissingSku)
        } else if or_zero(input.price_cents) < 0 || or_zero(input.cost_cents) < 0 {
            Some(AppError::InvalidValues)
        } else {
            None
        }
    } else if entity == "customers"@ || entity == "suppliers"@ {
        None
    } else {
        Some(AppError::InvalidRecordKind)
    }
}

fn text_or_default(v: &Option<String>) -> (res: String)
    ensures
        res@ == text_or_empty(*v),
{
    match v {
        Some(s) => s.clone(),
        None => String::new(),
    }
}

fn clone_opt_text(v: &Option<String>) -> (res: Option<String>)
    ensures
        same_opt_text(res, *v),
{
    match v {
        Some(s) => Some(s.clone()),
        None => None,
    }
}

/// Checks a product, customer or supplier before it is saved, and lays out what
/// is written: a blank name is refused; a product needs a SKU and no negative
/// cost or price, and its missing amounts count as zero; a record without a
/// choice of activity is active.
pub fn plan_save_record(entity: &str, input: &RecordInput) -> (res: Result<RecordSave, AppError>)
    ensures
        entity@ == "customers"@ || entity@ == "suppliers"@ ==> (res is Ok <==> !is_blank(
            input.name@,
        )),
        entity@ == "products"@ ==> (res is Ok <==> !is_blank(input.name@) && !is_blank(
            text_or_empty(input.code),
        ) && or_zero(input.price_cents) >= 0 && or_zero(input.cost_cents) >= 0),
        res is Ok ==> entity@ == "products"@ || entity@ == "customers"@ || entity@ == "suppliers"@,
        match record_save_error(entity@, *input) {
            Some(e) => res == Err::<RecordSave, AppError>(e),
            None => res matches Ok(plan) && match plan {
                RecordSave::Product { target, product: fields } => {
                    &&& entity@ == "products"@
                    &&& target == target_of(input.id)
                    &&& fields.name@ == input.name@
                    &&& fields.sku@ == text_or_empty(input.code)
                    &&& same_opt_text(fields.category, input.category)
                    &&& fields.supplier_id == input.supplier_id
                    &&& fields.cost_cents == or_zero(input.cost_cents)
                    &&& fields.price_cents == or_zero(input.price_cents)
                    &&& fields.stock == or_zero(input.stock)
                    &&& fields.minimum_stock == or_zero(input.minimum_stock)
                    &&& fields.active == (if input.active == Some(false) {
                        0i64
                    } else {
                        1i64
                    })
                },
                RecordSave::Person { target, person: fields } => {
                    &&& entity@ == "customers"@ || entity@ == "suppliers"@
                    &&& fields.kind == (if entity@ == "customers"@ {
                        PersonKind::Customer
                    } else {
                        PersonKind::Supplier
                    })
                    &&& target == target_of(input.id)
                    &&& fields.name@ == input.name@
                    &&& same_opt_text(
                        fields.contact,
                        if entity@ == "suppliers"@ {
                            input.code
                        } else {
                            None
                        },
                    )
                    &&& same_opt_text(fields.phone, input.phone)
                    &&& same_opt_text(fields.email, input.email)
                    &&& same_opt_text(fields.notes, input.notes)
                },
            },
        },
{
    if blank(input.name.as_str()) {
        return Err(AppError::MissingName);
    }
    proof {
        lemma_module_names_distinct();
    }
    let active: i64 = match input.active {
        Some(false) => 0,
        _ => 1,
    };
    if same_text(entity, "products") {
        let sku = text_or_default(&input.code);
        if blank(sku.as_str()) {
            return Err(AppError::MissingSku);
        }
        let cost = match input.cost_cents {
            Some(c) => c,
            None => 0,
        };
        let price = match input.price_cents {
            Some(p) => p,
            None => 0,
        };
        if price < 0 || cost < 0 {
            return Err(AppError::InvalidValues);
        }
        let stock = match input.stock {
            Some(s) => s,
            None => 0,
        };
        let minimum_stock = match input.minimum_stock {
            Some(m) => m,
            None => 0,
        };
        let fields = ProductFields {
            name: input.name.clone(),
            sku,
            category: clone_opt_text(&input.category),
            supplier_id: input.supplier_id,
            cost_cents: cost,
            price_cents: price,
            stock,
            minimum_stock,
            active,
        };
        return Ok(RecordSave::Product { target: save_target(input.id), product: fields });
    }
    let kind = if same_text(entity, "customers") {
        PersonKind::Customer
    } else if same_text(entity, "suppliers") {
        PersonKind::Supplier
    } else {
        return Err(AppError::InvalidRecordKind);
    };
    proof {
        reveal_strlit("customers");
        reveal_strlit("suppliers");
        assert("customers"@[0] != "suppliers"@[0]);
    }
    let contact = match kind {
        PersonKind::Supplier => clone_opt_text(&input.code),
        PersonKind::Customer => None,
    };
    let fields = PersonFields {
        kind,
        name: input.name.clone(),
        contact,
        phone: clone_opt_text(&input.phone),
        email: clone_opt_text(&input.email),
        notes: clone_opt_text(&input.notes),
    };
    Ok(RecordSave::Person { target: save_target(input.id), person: fields })
}

/// The module names are seven different texts.
proof fn lemma_module_names_distinct()
    ensures
        "products"@ != "customers"@,
        "products"@ != "suppliers"@,
        "products"@ != "stock"@,
        "products"@ != "sales"@,
        "products"@ != "accounts"@,
        "products"@ != "cash"@,
        "customers"@ != "suppliers"@,
        "customers"@ != "stock"@,
        "customers"@ != "sales"@,
        "customers"@ != "accounts"@,
        "customers"@ != "cash"@,
        "suppliers"@ != "stock"@,
        "suppliers"@ != "sales"@,
        "suppliers"@ != "accounts"@,
        "suppliers"@ != "cash"@,
        "stock"@ != "sales"@,
        "stock"@ != "accounts"@,
        "stock"@ != "cash"@,
        "sales"@ != "accounts"@,
        "sales"@ != "cash"@,
        "accounts"@ != "cash"@,
{
    reveal_strlit("products");
    reveal_strlit("customers");
    reveal_strlit("suppliers");
    reveal_strlit("stock");
    reveal_strlit("sales");
    reveal_strlit("accounts");
    reveal_strlit("cash");
    assert("products"@[0] != "accounts"@[0]);
    assert("customers"@[0] != "suppliers"@[0]);
    assert("stock"@[1] != "sales"@[1]);
    assert("customers"@[1] != "cash"@[1]);
    assert("sales"@[2] != "cash"@[2]);
}

/// Each module lists its own records: the listing chosen for a module name is
/// exactly the listing of that module, and no other name selects it.
pub proof fn lemma_listing_is_the_modules_own(entity: Seq<char>, listing: RecordList)
    ensures
        list_of(entity) == Some(listing) <==> listing.module() == entity,
{
    lemma_module_names_distinct();
}

/// Different module names never share a listing.
pub proof fn lemma_listings_are_distinct(first: Seq<char>, second: Seq<char>)
    requires
        list_of(first) is Some,
        list_of(first) == list_of(second),
    ensures
        first == second,
{
    lemma_listing_is_the_modules_own(first, list_of(first).unwrap());
    lemma_listing_is_the_modules_own(second, list_of(second).unwrap());
}

/// A record is deleted from the table of its own kind: the table chosen for a
/// kind is the table named like it, and only products, customers and
/// suppliers can be deleted.
pub proof fn lemma_delete_from_own_table(entity: Seq<char>, table: RecordTable)
    ensures
        table_of(entity) == Some(table) <==> table.name() == entity,
        table_of(entity) is Some <==> (entity == "products"@ || entity == "customers"@ || entity
            == "suppliers"@),
{
    lemma_module_names_distinct();
}

/// A customer or supplier needs only a name: its code (a supplier's contact)
/// is optional, so with a name it is always accepted.
pub proof fn lemma_people_need_only_a_name(entity: Seq<char>, input: RecordInput)
    requires
        entity == "customers"@ || entity == "suppliers"@,
    ensures
        record_save_error(entity, input) is None <==> !is_blank(input.name@),
        record_save_error(entity, input) is Some ==> record_save_error(entity, input) == Some(
            AppError::MissingName,
        ),
{
    lemma_module_names_distinct();
}

/// A product is accepted exactly when it has a name, a SKU, and no negative
/// cost or price.
pub proof fn lemma_product_requirements(input: RecordInput)
    ensures
        record_save_error("products"@, input) is None <==> (!is_blank(input.name@) && !is_blank(
            text_or_empty(input.code),
        ) && or_zero(input.price_cents) >= 0 && or_zero(input.cost_cents) >= 0),
{
}

} // verus!
