//! Accounts: registration, login and the credential that proves a login.

pub mod authentication;
pub mod hashing;
pub mod jwt;
pub mod registration;
