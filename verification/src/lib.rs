//! The decisions of an async network stack.
//!
//! The library does no I/O: it is told what happened and answers with what is to
//! be done next.
use vstd::prelude::*;

pub mod adapter_laws;
pub mod config;
pub mod cooperative;
pub mod dns;
pub mod driver;
pub mod driver_util;
pub mod egress;
pub mod iface;
pub mod lists;
pub mod model;
pub mod nonzero;
pub mod phy;
pub mod stack;
pub mod stack_laws;
pub mod timestamps;
pub mod waiting;
pub mod wire;

verus! {

/// Error returned by `try_*` socket methods.
///
/// `WouldBlock` indicates the operation would block (e.g. no data available,
/// send buffer full). `Other` wraps the socket-specific error type for any
/// other failure.
#[derive(Debug, PartialEq, Eq, Clone, Copy)]
pub enum TryError<T> {
    /// The operation would block; try again later.
    WouldBlock,
    /// A socket-specific error occurred.
    Other(T),
}

} // verus!
