//! The verified core of a Python driver for a CQL database.

pub mod callbacks;
pub mod coroutine;
pub mod exception;
pub mod future;
pub mod session;
pub mod shared;
pub mod value_list;
