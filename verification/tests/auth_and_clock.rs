use gestor_comercial::auth::{admin_seed, digest, login_outcome, login_query, needs_admin_seed, AuthResult};
use gestor_comercial::clock::{now, today};
use gestor_comercial::error::AppError;

#[test]
fn digest_is_hex_sha256() {
    assert_eq!(digest("admin123"), "240be518fabd2724ddb6f04eeb1da5967448d7e831c08c8fa822809f74c720a9");
    assert_eq!(digest(""), "e3b0c44298fc1c149afbf4c8996fb92427ae41e4649b934ca495991b7852b855");
    assert_eq!(digest("senha secreta").len(), 64);
    assert_ne!(digest("a"), digest("b"));
}

#[test]
fn seeded_administrator_can_log_in() {
    let seed = admin_seed();
    assert_eq!(seed.name, "Administrador");
    let q = login_query("  admin \n", "admin123");
    assert_eq!(q.username, seed.username);
    assert_eq!(q.password_hash, seed.password_hash);
    assert!(needs_admin_seed(0));
    assert!(!needs_admin_seed(1));
}

#[test]
fn login_refused_without_a_user() {
    let err = login_outcome(None).unwrap_err();
    assert_eq!(err, AppError::InvalidCredentials);
    assert_eq!(err.message(), "Usuário ou senha inválidos.");
    let user = login_outcome(Some(AuthResult { id: 3, name: "Ana".to_string(), username: "ana".to_string() })).unwrap();
    assert_eq!(user.id, 3);
}

#[test]
fn now_is_a_timestamp_and_today_a_date() {
    let t = now();
    assert_eq!(t.len(), 19);
    assert!(chrono::NaiveDateTime::parse_from_str(&t, "%Y-%m-%d %H:%M:%S").is_ok());
    let d = today();
    assert_eq!(d.len(), 10);
    assert!(chrono::NaiveDate::parse_from_str(&d, "%Y-%m-%d").is_ok());
}

#[test]
fn date_texts_sort_like_days() {
    let days = ["0999-12-31", "2023-12-31", "2024-01-31", "2024-02-01", "2024-02-10"];
    for w in days.windows(2) {
        assert!(w[0] < w[1]);
    }
    assert!("2024-02-01 09:59:59" < "2024-02-01 10:00:00");
}
