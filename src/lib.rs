//! A disposable, uniquely named database workspace for tests that share one
//! database service: the identifier that names the workspace, the statements
//! sent to the service, and the lifecycle of a scoped session.

pub mod demo;
pub mod ident;
pub mod session;
pub mod statements;
