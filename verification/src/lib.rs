//! A typed model of the values exchanged with Neovim's API, of the
//! conversions between them and Rust types, and of the convention that
//! every call into Neovim follows.
//!
//! - [`object`] holds the tagged value, [`Object`](object::Object), and its
//!   mathematical model, [`Value`](object::Value).
//! - [`non_owning`] holds the borrowed views that are handed to a call.
//! - [`conversion`] reads Rust values from objects and writes them, and
//!   [`bridge`] does so for structs and enums, field by field.
//! - [`call`] decides the outcome of a call from what the call left behind.
//! - [`tabpage`], [`extmark`] and [`vimscript`] are the API functions. Each
//!   takes the foreign call itself as its last argument, prepares what the
//!   call is given, and decides what the call amounts to.
//! - [`laws`] states what holds of the conversions for every value.
//!
//! Nothing here touches Neovim: the caller makes the calls.

pub mod bridge;
pub mod buffer;
pub mod call;
pub mod constructors;
pub mod conversion;
pub mod decimal;
pub mod extmark;
pub mod function;
pub mod laws;
pub mod non_owning;
pub mod object;
pub mod opts;
pub mod tabpage;
pub mod types;
pub mod utils;
pub mod vimscript;
pub mod window;
