use vstd::prelude::*;

verus! {

/// The error that a service's own lifecycle hook reports.
pub struct RsServiceError(pub String);

impl RsServiceError {
    /// An error carrying `message`.
    pub fn new(message: String) -> (r: Self)
        ensures
            r.0@ == message@,
    {
        RsServiceError(message)
    }

    /// The text that the hook gave.
    pub fn message(&self) -> (r: &String)
        ensures
            r@ == self.0@,
    {
        &self.0
    }
}

/// The two points of a service's life at which the container runs its hooks.
#[derive(Clone, Copy, Debug, PartialEq, Eq, Structural)]
pub enum HookPhase {
    /// Right after construction, before the service is stored.
    Creation,
    /// After every registration is closed and the context exists.
    Built,
}

/// What can go wrong while registering services or building the context.
pub enum ContainerError {
    /// The service type with this key was already registered on the builder.
    DuplicateRegistration { key: u64, name: String },
    /// A hook of the service type with this key failed with `cause`.
    HookFailure { phase: HookPhase, key: u64, name: String, cause: RsServiceError },
}

impl ContainerError {
    /// A duplicate registration of the type with `key` and display name `label`.
    pub open spec fn is_duplicate_of(self, key: u64, label: Seq<char>) -> bool {
        match self {
            ContainerError::DuplicateRegistration { key: k, name } => k == key && name@ == label,
            _ => false,
        }
    }

    /// A failure in `phase` of a hook of the type with `key` and display name `label`.
    pub open spec fn is_hook_failure_of(self, phase: HookPhase, key: u64, label: Seq<char>) -> bool {
        match self {
            ContainerError::HookFailure { phase: p, key: k, name, cause: _ } => p == phase && k
                == key && name@ == label,
            _ => false,
        }
    }
}

} // verus!
