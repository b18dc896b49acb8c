//! Copy-on-write cloning of one regular file through the `FICLONE` ioctl,
//! as a set of verified decisions that a thin host binding carries out.
//!
//! The binding reads the host's arguments, opens files and calls the kernel;
//! this library says in which order, with which parameters, what each
//! outcome means and what the host is told.

pub mod call;
pub mod error;
pub mod host;
pub mod logger;
pub mod open;
pub mod reflink;
pub mod trace;
pub mod version;
