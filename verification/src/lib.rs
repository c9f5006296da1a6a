//! A bridge between Rust code and a PostgreSQL server that calls it.
//!
//! The server and Rust disagree on three things. The server raises errors by
//! `longjmp`, where Rust unwinds; it owns memory by context, where Rust owns
//! it by value; and it passes arguments as untyped words with a NULL flag,
//! where Rust has types. This crate holds the rules that reconcile them:
//!
//! - [`datum`]: values to and from the server's words;
//! - [`palloc`]: allocation from the current memory context, and the scoped
//!   switch of that context;
//! - [`guard`]: the guard that turns a jump of the server into a Rust
//!   failure, and a failure back into an error of the server;
//! - [`call`]: the protocol of one call of a function or an aggregate;
//! - [`elog`]: severity levels and the text of a report;
//! - [`foreign`]: which bindings to the server get a guard;
//! - [`backend`]: the state of the server process that all of these share.
//!
//! Nothing here jumps, unwinds or calls the server. The state of the process
//! is a [`backend::Backend`] that is handed along, and what the machine does
//! by control flow is a value: a piece of work returns how it ended, and a
//! call returns the way out that its caller must take.
pub mod backend;
pub mod call;
pub mod datum;
pub mod elog;
pub mod foreign;
pub mod guard;
pub mod palloc;
