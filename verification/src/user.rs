//! The profile of a user: changing the password, the e-mail address and
//! the name.

pub mod user;
