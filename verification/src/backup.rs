use vstd::prelude::*;
use crate::error::AppError;
use crate::text::same_text;

verus! {

/// A backup is never written over an existing file.
pub fn check_backup_target(exists: bool) -> (res: Result<(), AppError>)
    ensures
        exists ==> res == Err::<(), AppError>(AppError::BackupTargetExists),
        !exists ==> res is Ok,
{
    if exists {
        Err(AppError::BackupTargetExists)
    } else {
        Ok(())
    }
}

/// Judges SQLite's integrity check of a backup file: `None` when the check
/// could not be run, else its answer, which must be `ok`.
pub fn check_backup_integrity(integrity: Option<&str>) -> (res: Result<(), AppError>)
    ensures
        integrity is None ==> res == Err::<(), AppError>(AppError::InvalidBackup),
        integrity matches Some(s) && s@ != "ok"@ ==> res == Err::<(), AppError>(
            AppError::BackupIntegrity,
        ),
        integrity matches Some(s) && s@ == "ok"@ ==> res is Ok,
{
    match integrity {
        None => Err(AppError::InvalidBackup),
        Some(s) => if same_text(s, "ok") {
            Ok(())
        } else {
            Err(AppError::BackupIntegrity)
        },
    }
}

/// Judges whether a backup file is one of this application: `None` when its
/// tables could not be listed, else how many tables named `users` it has,
/// which must not be zero.
pub fn check_backup_users(user_tables: Option<i64>) -> (res: Result<(), AppError>)
    ensures
        user_tables is None ==> res == Err::<(), AppError>(AppError::InvalidBackup),
        user_tables == Some(0i64) ==> res == Err::<(), AppError>(AppError::NotAppBackup),
        user_tables matches Some(n) && n != 0 ==> res is Ok,
{
    match user_tables {
        None => Err(AppError::InvalidBackup),
        Some(n) => if n == 0 {
            Err(AppError::NotAppBackup)
        } else {
            Ok(())
        },
    }
}

} // verus!
