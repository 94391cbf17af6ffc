//! A type-safe service container: services are registered on a builder,
//! run a creation hook at registration and a built hook once the finished
//! context exists, and are then shared behind per-service locks.

pub mod build_pass;
pub mod builder;
pub mod common;
pub mod context;
pub mod laws;
pub mod registry;
pub mod service;
pub mod types;

pub use build_pass::BuildPass;
pub use builder::{RSContextBuilder, Rejected};
pub use common::{ContainerError, HookPhase, RsServiceError};
pub use context::{Metadata, RSContext};
pub use registry::{AnyService, ServiceEntry, ServiceHandle};
pub use service::{BuiltHook, RSContextService, ServiceSet, ServiceType};
pub use types::{Service, ServiceCluster};
