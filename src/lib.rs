//! Homeserver discovery for a Matrix client, written as a pure, effect-driven
//! update engine: events go in, requested side effects come out.
pub mod discovery;
pub mod homeserver;
pub mod laws;
pub mod matrix;
pub mod protocol;

pub use homeserver::{Homeserver, HomeserverConfig};
pub use matrix::{Continuation, Effect, Event, MatrixCore, Model, Status, ViewModel};
pub use protocol::{HttpError, HttpHeader, HttpRequest, HttpResponse, KeyValueOperation};
