//! The core of a task-management service: the task records, the statements
//! that the store is asked to run, and the shaping of every store reply into
//! the response that a client sees.
//!
//! Nothing here performs I/O. A caller runs each [`store::Statement`]
//! against its store and hands the reply to the matching function of
//! [`handlers`].

pub mod errors;
pub mod handlers;
pub mod model;
pub mod path;
pub mod response;
pub mod store;
