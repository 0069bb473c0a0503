use vstd::prelude::*;

verus! {

/// Every way a command of the application can be refused.
#[derive(Debug, PartialEq, Eq)]
pub enum AppError {
    /// The shared database connection could not be taken.
    DatabaseUnavailable,
    /// No active user has this name and password.
    InvalidCredentials,
    /// A listing was asked for a module that does not exist.
    InvalidModule,
    /// A record was saved with a blank name.
    MissingName,
    /// A product was saved with a blank SKU.
    MissingSku,
    /// A product was saved with a negative cost or price.
    InvalidValues,
    /// A new product repeats the SKU of another one.
    SkuInUse,
    /// A record was saved or deleted under an unknown kind.
    InvalidRecordKind,
    /// A record that others refer to was deleted.
    RecordInUse,
    /// A stock movement of zero or fewer units.
    NonPositiveQuantity,
    /// The product of a stock movement does not exist.
    ProductNotFound,
    /// A stock movement would leave the stock below zero.
    InsufficientStock,
    /// A sale without items.
    EmptySale,
    /// A sale while no cash session is open.
    CashClosed,
    /// A sale item of zero or fewer units.
    InvalidQuantity,
    /// A sale item whose product is missing or inactive.
    ProductUnavailable,
    /// A sale item asks for more units than are in stock.
    InsufficientItemStock,
    /// A cash operation with a negative amount.
    InvalidAmount,
    /// A cash session was opened while another is open.
    CashAlreadyOpen,
    /// A cash operation while no cash session is open.
    NoOpenCash,
    /// An account with a blank description or due date.
    MissingAccountFields,
    /// An account of zero or less.
    NonPositiveAmount,
    /// An account that is neither payable nor receivable.
    InvalidAccountKind,
    /// The account does not exist.
    AccountNotFound,
    /// Only pending accounts may be edited.
    AccountNotEditable,
    /// The account was already paid, received or canceled.
    AccountAlreadyProcessed,
    /// Paying a receivable or receiving a payable.
    IncompatibleAction,
    /// Only pending accounts may be deleted.
    AccountNotDeletable,
    /// The company record is missing.
    CompanyNotFound,
    /// The company was saved with a blank name.
    MissingCompanyName,
    /// A preference outside the values the application offers.
    InvalidPreference,
    /// A backup would overwrite an existing file.
    BackupTargetExists,
    /// The backup file could not be created.
    BackupNotCreated,
    /// Copying the database into the backup failed.
    BackupFailed,
    /// The backup file could not be opened.
    BackupUnreadable,
    /// The backup file could not be queried.
    InvalidBackup,
    /// The backup file fails SQLite's integrity check.
    BackupIntegrity,
    /// The backup file has no users table.
    NotAppBackup,
    /// Copying the backup into the database failed.
    RestoreFailed,
    /// A failure reported by the database, with its own text.
    Database(String),
}

impl AppError {
    /// The text shown to the user for this error.
    pub open spec fn text(&self) -> Seq<char> {
        match self {
            AppError::DatabaseUnavailable => "Banco indisponível"@,
            AppError::InvalidCredentials => "Usuário ou senha inválidos."@,
            AppError::InvalidModule => "Módulo inválido"@,
            AppError::MissingName => "Informe o nome."@,
            AppError::MissingSku => "Informe o SKU."@,
            AppError::InvalidValues => "Valores inválidos."@,
            AppError::SkuInUse => "Este SKU já está em uso."@,
            AppError::InvalidRecordKind => "Cadastro inválido"@,
            AppError::RecordInUse => "Este registro possui movimentações e não pode ser excluído."@,
            AppError::NonPositiveQuantity => "Quantidade deve ser maior que zero."@,
            AppError::ProductNotFound => "Produto não encontrado."@,
            AppError::InsufficientStock => "Estoque insuficiente para esta saída."@,
            AppError::EmptySale => "Adicione ao menos um item."@,
            AppError::CashClosed => "Abra o caixa antes de concluir uma venda."@,
            AppError::InvalidQuantity => "Quantidade inválida."@,
            AppError::ProductUnavailable => "Produto indisponível."@,
            AppError::InsufficientItemStock => "Estoque insuficiente em um dos itens."@,
            AppError::InvalidAmount => "Valor inválido."@,
            AppError::CashAlreadyOpen => "Já existe um caixa aberto."@,
            AppError::NoOpenCash => "Não há caixa aberto."@,
            AppError::MissingAccountFields => "Informe descrição e vencimento."@,
            AppError::NonPositiveAmount => "Informe um valor maior que zero."@,
            AppError::InvalidAccountKind => "Tipo de conta inválido."@,
            AppError::AccountNotFound => "Conta não encontrada."@,
            AppError::AccountNotEditable => "Somente contas pendentes podem ser editadas."@,
            AppError::AccountAlreadyProcessed => "Esta conta já foi processada."@,
            AppError::IncompatibleAction => "Ação incompatível com o tipo da conta."@,
            AppError::AccountNotDeletable => "Somente contas pendentes podem ser excluídas."@,
            AppError::CompanyNotFound => "Empresa não encontrada"@,
            AppError::MissingCompanyName => "Informe o nome da empresa."@,
            AppError::InvalidPreference => "Preferência inválida."@,
            AppError::BackupTargetExists => "Já existe um arquivo neste local. Escolha outro nome."@,
            AppError::BackupNotCreated => "Não foi possível criar o arquivo de backup."@,
            AppError::BackupFailed => "Falha ao criar backup."@,
            AppError::BackupUnreadable => "Não foi possível abrir o arquivo de backup."@,
            AppError::InvalidBackup => "Backup inválido."@,
            AppError::BackupIntegrity => "O arquivo informado não possui integridade SQLite."@,
            AppError::NotAppBackup => "O arquivo não é um backup do Gestor Comercial."@,
            AppError::RestoreFailed => "Falha ao restaurar backup."@,
            AppError::Database(s) => s@,
        }
    }

    /// The text shown to the user for this error.
    pub fn message(&self) -> (res: String)
        ensures
            res@ == self.text(),
    {
        match self {
            AppError::DatabaseUnavailable => "Banco indisponível".to_owned(),
            AppError::InvalidCredentials => "Usuário ou senha inválidos.".to_owned(),
            AppError::InvalidModule => "Módulo inválido".to_owned(),
            AppError::MissingName => "Informe o nome.".to_owned(),
            AppError::MissingSku => "Informe o SKU.".to_owned(),
            AppError::InvalidValues => "Valores inválidos.".to_owned(),
            AppError::SkuInUse => "Este SKU já está em uso.".to_owned(),
            AppError::InvalidRecordKind => "Cadastro inválido".to_owned(),
            AppError::RecordInUse => "Este registro possui movimentações e não pode ser excluído.".to_owned(),
            AppError::NonPositiveQuantity => "Quantidade deve ser maior que zero.".to_owned(),
            AppError::ProductNotFound => "Produto não encontrado.".to_owned(),
            AppError::InsufficientStock => "Estoque insuficiente para esta saída.".to_owned(),
            AppError::EmptySale => "Adicione ao menos um item.".to_owned(),
            AppError::CashClosed => "Abra o caixa antes de concluir uma venda.".to_owned(),
            AppError::InvalidQuantity => "Quantidade inválida.".to_owned(),
            AppError::ProductUnavailable => "Produto indisponível.".to_owned(),
            AppError::InsufficientItemStock => "Estoque insuficiente em um dos itens.".to_owned(),
            AppError::InvalidAmount => "Valor inválido.".to_owned(),
            AppError::CashAlreadyOpen => "Já existe um caixa aberto.".to_owned(),
            AppError::NoOpenCash => "Não há caixa aberto.".to_owned(),
            AppError::MissingAccountFields => "Informe descrição e vencimento.".to_owned(),
            AppError::NonPositiveAmount => "Informe um valor maior que zero.".to_owned(),
            AppError::InvalidAccountKind => "Tipo de conta inválido.".to_owned(),
            AppError::AccountNotFound => "Conta não encontrada.".to_owned(),
            AppError::AccountNotEditable => "Somente contas pendentes podem ser editadas.".to_owned(),
            AppError::AccountAlreadyProcessed => "Esta conta já foi processada.".to_owned(),
            AppError::IncompatibleAction => "Ação incompatível com o tipo da conta.".to_owned(),
            AppError::AccountNotDeletable => "Somente contas pendentes podem ser excluídas.".to_owned(),
            AppError::CompanyNotFound => "Empresa não encontrada".to_owned(),
            AppError::MissingCompanyName => "Informe o nome da empresa.".to_owned(),
            AppError::InvalidPreference => "Preferência inválida.".to_owned(),
            AppError::BackupTargetExists => "Já existe um arquivo neste local. Escolha outro nome.".to_owned(),
            AppError::BackupNotCreated => "Não foi possível criar o arquivo de backup.".to_owned(),
            AppError::BackupFailed => "Falha ao criar backup.".to_owned(),
            AppError::BackupUnreadable => "Não foi possível abrir o arquivo de backup.".to_owned(),
            AppError::InvalidBackup => "Backup inválido.".to_owned(),
            AppError::BackupIntegrity => "O arquivo informado não possui integridade SQLite.".to_owned(),
            AppError::NotAppBackup => "O arquivo não é um backup do Gestor Comercial.".to_owned(),
            AppError::RestoreFailed => "Falha ao restaurar backup.".to_owned(),
            AppError::Database(s) => s.clone(),
        }
    }
}

} // verus!
