//! Core of an encrypted personal-data vault.
//!
//! The vault keeps records, each a titled list of typed fields, in one
//! encrypted file, and can mirror that file to a remote server. This crate is
//! the part of it that decides: it checks values, builds the statements that
//! the store runs, reads rows back, keeps the registry of passcode
//! generators, and steers transfers. It opens no file and no connection;
//! whoever uses it performs the work that it asks for and reports back.
//!
//! - Values: [`value`], [`kind`], [`grammar`], [`number`], [`validation`].
//! - Records and fields: [`model`], [`traits`], [`template`], [`secret`].
//! - The store: [`database`], [`sql`], [`convert`], [`transaction`], and
//!   [`tables`] for what the statements mean.
//! - Passcodes: [`otp`], [`totp`].
//! - Passwords: [`password`].
//! - Synchronisation: [`cloud`], [`transfer`].
//! - The session around them: [`session`].
//! - Errors: [`error`].

pub mod cloud;
pub mod convert;
pub mod database;
pub mod error;
pub mod grammar;
pub mod kind;
pub mod model;
pub mod number;
pub mod otp;
pub mod password;
pub mod secret;
pub mod session;
pub mod sql;
pub mod tables;
pub mod template;
pub mod text;
pub mod totp;
pub mod traits;
pub mod transaction;
pub mod transfer;
pub mod validation;
pub mod value;
