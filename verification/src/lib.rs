//! Verified core of a small point-of-sale and back-office manager: the rules
//! that decide what each command of the desktop application may do with its
//! database, independent of the database itself.

pub mod error;
pub mod text;
pub mod cash;
pub mod accounts;
pub mod sales;
pub mod stock;
pub mod records;
pub mod auth;
pub mod clock;
pub mod settings;
pub mod backup;
pub mod reports;
