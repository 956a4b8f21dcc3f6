//! A safe and convenient layer for functions that the Wolfram kernel loads through
//! LibraryLink.
//!
//! A library function takes Wolfram expressions as strings and answers with one.
//! [`wrapper`] holds the body of such a function: it reads the arguments, runs the function
//! and says what the kernel is answered. Any panic of the function is caught, and reported
//! as a `Failure` with the panic's message and source location.
//!
//! ## Getting backtraces when a panic occurs
//!
//! The failure can also show the backtrace of the panic. This is configured by the
//! "LIBRARY_LINK_RUST_BACKTRACE" environment variable. Enable it by evaluating:
//!
//! ```wolfram
//! SetEnvironment["LIBRARY_LINK_RUST_BACKTRACE" -> "True"]
//! ```

pub mod catch_panic;
pub mod engine;
pub mod expr;
pub mod marg;
pub mod status;
pub mod wrapper;

pub use crate::engine::{Engine, EngineCallbacks, EngineInterface};
pub use crate::expr::failure_expr;
pub use crate::marg::{failure_msg, marg_str, marg_str_expr, write_expr};
pub use crate::status::{
    LibraryLinkStatus, LIBRARY_FUNCTION_ERROR, LIBRARY_NO_ERROR, LIBRARY_TYPE_ERROR,
};
