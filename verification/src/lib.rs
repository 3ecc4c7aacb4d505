//! The core of a small service that keeps two kinds of record, users and
//! items, and offers four operations on each: create, list, get and delete.
//!
//! The crate says what a request means and how it is answered, and leaves
//! the sending and the storing to the program around it:
//!
//! - [`record`] holds the records.
//! - [`route`] finds the operation that a method and a path name.
//! - [`operation`] says what each operation does to a table and is answered
//!   with, and [`reply`] makes the answer from what a statement on the
//!   storage returned.
//! - [`table`] is a table held in memory, which carries the operations out
//!   where no database is at hand.
//! - [`laws`] states what holds of the operations whatever the records.
//! - [`startup`] orders the work before the first request, [`launch`] goes
//!   through it, and [`service`] is what stands at its end.

pub mod launch;
pub mod laws;
pub mod operation;
pub mod record;
pub mod reply;
pub mod route;
mod seq_lemmas;
pub mod service;
pub mod startup;
pub mod table;
pub mod text;
