//! An encrypted store of credentials.
//!
//! A [`models::Database`] is an ordered list of accounts in which no two share an
//! id. [`encryption::seal_database`] writes it down, encrypts it with AES-256-GCM
//! under a key that Argon2id derives from a passkey and a fresh salt, and gives the
//! text of the file to store; [`encryption::open_database`] reverses this and tells
//! a wrong passkey or an altered file by one error. [`password`] holds the password
//! rule and a generator that meets it. [`cli`] is the dialog of the interactive
//! shell as a function from a session and an event to the next session and what to
//! do. [`codec`] is the written form of stores and of stored files, [`primitives`]
//! the calls into other crates, and [`laws`] what holds between the functions.
pub mod cli;
pub mod codec;
pub mod encryption;
pub mod laws;
pub mod models;
pub mod password;
pub mod primitives;
