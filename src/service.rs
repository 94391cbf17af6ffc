use vstd::prelude::*;
use crate::builder::RSContextBuilder;
use crate::common::RsServiceError;
use crate::context::RSContext;

verus! {

/// The closed set of services that one container holds, usually an enum with
/// one variant per service type.
pub trait ServiceSet: Sized {
    /// The opaque tag that a context may carry.
    type Category;
}

/// The blocking built hook of a service set.
pub trait BuiltHook: ServiceSet {
    /// Run once per stored service, in registration order, after every
    /// registration is closed; every registered service is reachable
    /// through `context`.
    fn on_all_services_built(&self, context: &RSContext<Self>) -> Result<(), RsServiceError>;
}

/// What identifies a service type within the set `S`, and how an instance
/// joins the set.
pub trait ServiceType<S: ServiceSet>: Sized {
    /// The identity token of this service type, unique within `S`.
    const KEY: u64;

    /// The display name of this service type.
    const NAME: &'static str;

    /// The capabilities this service type offers, one bit each.
    const CAPABILITIES: u64;

    /// Moves the instance into the service set.
    fn into_service(self) -> S;
}

/// A service type with blocking construction and creation hook.
pub trait RSContextService<S: ServiceSet>: ServiceType<S> {
    /// Makes a new instance of the service.
    fn on_register_crate_instance() -> Self;

    /// The creation hook: run once, right after construction and before the
    /// instance is stored; `builder` shows the services registered so far.
    fn on_service_created(&mut self, builder: &RSContextBuilder<S>) -> Result<(), RsServiceError>;
}

} // verus!
