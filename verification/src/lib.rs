//! Verified core of a small to-do application: password hashing, the
//! records kept in the database, the routes of the user interface, and the
//! decisions taken by its login, registration and to-do screens.

pub mod hashing;
pub mod model;
pub mod route;
pub mod records;
pub mod login;
pub mod registration;
pub mod todos;
