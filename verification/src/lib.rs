//! A composition layer for request-handling services: a uniform service
//! abstraction with an explicit readiness protocol, combinators that
//! transform the values flowing through a service, a router that dispatches
//! each request to one of several inner services, and convenience operations
//! built on top of them.

pub mod service;
pub mod layer;
pub mod leaf;
pub mod steer;
pub mod transform;
pub mod map_response;
pub mod map_err;
pub mod map_request;
pub mod try_map_request;
pub mod map_result;
pub mod chain;
pub mod optional;
pub mod ext;

pub use service::Readiness;
pub use service::Service;
pub use steer::Picker;
pub use steer::Steer;
pub use optional::Optional;
