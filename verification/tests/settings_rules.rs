use gestor_comercial::backup::{check_backup_integrity, check_backup_target, check_backup_users};
use gestor_comercial::error::AppError;
use gestor_comercial::settings::{
    collect_preferences, company_outcome, company_seed_name, default_settings, validate_company, validate_preferences,
    CompanyInput, PreferenceInput, StoredSetting,
};

fn prefs(c: &str, f: &str, a: &str) -> PreferenceInput {
    PreferenceInput { currency: c.to_string(), date_format: f.to_string(), appearance: a.to_string() }
}

#[test]
fn preferences_are_limited_to_what_is_offered() {
    let v = validate_preferences(&prefs("BRL", "DD/MM/AAAA", "system")).unwrap();
    assert_eq!(v.len(), 3);
    assert_eq!((v[0].key.as_str(), v[0].value.as_str()), ("currency", "BRL"));
    assert_eq!((v[2].key.as_str(), v[2].value.as_str()), ("appearance", "system"));
    assert_eq!(validate_preferences(&prefs("USD", "DD/MM/AAAA", "dark")).unwrap_err().message(), "Preferência inválida.");
    assert_eq!(validate_preferences(&prefs("BRL", "MM/DD", "dark")).unwrap_err(), AppError::InvalidPreference);
    assert_eq!(validate_preferences(&prefs("BRL", "DD/MM/AAAA", "light")).unwrap_err(), AppError::InvalidPreference);
}

#[test]
fn default_settings_are_accepted_preferences() {
    let d = default_settings();
    assert_eq!(d[0].value, "BRL");
    let again = validate_preferences(&prefs(&d[0].value, &d[1].value, &d[2].value)).unwrap();
    for (a, b) in d.iter().zip(again.iter()) {
        assert_eq!(a.key, b.key);
        assert_eq!(a.value, b.value);
    }
}

#[test]
fn preferences_read_back_skip_non_text() {
    let rows = vec![
        StoredSetting { key: Some("currency".to_string()), value: Some("BRL".to_string()) },
        StoredSetting { key: Some("broken".to_string()), value: None },
        StoredSetting { key: Some("appearance".to_string()), value: Some("dark".to_string()) },
    ];
    let out = collect_preferences(&rows);
    assert_eq!(out.len(), 2);
    assert_eq!(out[1].key, "appearance");
}

#[test]
fn company_rules() {
    let c = CompanyInput { name: "  ".to_string(), cnpj: None, phone: None, address: None, logo_path: None };
    assert_eq!(validate_company(&c).unwrap_err().message(), "Informe o nome da empresa.");
    let c = CompanyInput { name: "Loja".to_string(), ..c };
    assert!(validate_company(&c).is_ok());
    assert_eq!(company_seed_name(), "Meu Comércio");
    assert_eq!(company_outcome::<i32>(None).unwrap_err().message(), "Empresa não encontrada");
    assert_eq!(company_outcome(Some(1)).unwrap(), 1);
}

#[test]
fn backups_are_checked() {
    assert_eq!(check_backup_target(true).unwrap_err(), AppError::BackupTargetExists);
    assert!(check_backup_target(false).is_ok());
    assert_eq!(check_backup_integrity(None).unwrap_err().message(), "Backup inválido.");
    assert_eq!(check_backup_integrity(Some("row 3 missing from index")).unwrap_err(), AppError::BackupIntegrity);
    assert!(check_backup_integrity(Some("ok")).is_ok());
    assert_eq!(check_backup_users(Some(0)).unwrap_err().message(), "O arquivo não é um backup do Gestor Comercial.");
    assert_eq!(check_backup_users(None).unwrap_err(), AppError::InvalidBackup);
    assert!(check_backup_users(Some(1)).is_ok());
}
