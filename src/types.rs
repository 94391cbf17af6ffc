use vstd::prelude::*;

verus! {

/// One named service and the actor that carries out its work.
pub struct Service<TActor> where TActor: 'static + Send + Sync {
    pub name: String,
    pub actor: TActor,
}

/// The named group of services that one worker manages.
pub struct ServiceCluster<TActor> where TActor: 'static + Send + Sync {
    pub services: Vec<Service<TActor>>,
    pub name: String,
}

} // verus!
