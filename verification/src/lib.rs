pub mod clockwork;
pub mod method;
pub mod modules;
pub mod routes;
pub mod status;

pub use clockwork::{Clockwork, ErrorHandler, Request, Response};
pub use method::Method;
pub use modules::{Module, Modules};
pub use status::StatusCode;
