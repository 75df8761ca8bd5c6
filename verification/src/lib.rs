//! Typed bindings to foreign objects that are reached through a table of
//! functions and that count their references.
//!
//! The library holds what can be decided without touching foreign memory:
//! the layout of identifiers, the calls that are due for each use of a handle
//! and what their answers mean, and the generator of bindings. It performs no
//! foreign call itself. A function that needs one hands back a
//! [`foreign::ForeignCall`]; the caller performs it and gives the answer to
//! the function that reads it.

pub mod types;
pub mod error;
pub mod guid;
pub mod idl;
pub mod ole32;
pub mod foreign;
pub mod interface;
pub mod comref;
pub mod ownership;

pub use crate::comref::ComRef;
pub use crate::interface::{ComClass, ComInterface, IDispatch, IDispatch_VTable, IUnknown, IUnknown_VTable};
