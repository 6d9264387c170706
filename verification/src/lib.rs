//! Rotation of the secrets of a secret store, one step at a time, without a
//! moment in which no valid credential exists.
//!
//! The library decides; it performs nothing. A rotation step is a chain of
//! calls of [`rotation::rotate`]: each call is handed the reply to the request
//! that the call before it asked for, and gives the next request or the
//! result. The caller performs the requests, on the secret store and on the
//! directory that issues the credentials. Every step is safe to repeat:
//! what a step finds done it does not do again.
//!
//! The modules follow the steps: [`create`], [`set`], [`test`] and [`finish`]
//! are the four steps, [`resource`] makes the new credential within the
//! bounds of the pool, [`value`] and [`describe`] read and write the store,
//! [`iam`] reads the directory, [`config`] reads the tags of a secret, and
//! [`laws`] states what holds of all of it.
pub mod config;
pub mod create;
pub mod describe;
pub mod error;
pub mod event;
pub mod exchange;
pub mod finish;
pub mod iam;
pub mod laws;
pub mod passwd;
pub mod resource;
pub mod rotation;
pub mod set;
pub mod test;
pub mod text;
pub mod value;
