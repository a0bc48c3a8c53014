use crate::capability::{Capability, ModuleDescriptor, ModuleError};
use crate::cell::SingleInitCell;
use crate::client::NodesRegistryLocalClient;
use crate::hub::{ClientHub, ContractId};
use crate::service::Service;
use std::sync::Arc;
use vstd::prelude::*;

verus! {

/// The module's unique name.
pub const MODULE_NAME: &'static str = "nodes-registry";

/// Identity of the nodes-registry client contract in a client hub.
pub const NODES_REGISTRY_CONTRACT: ContractId = 1;

/// Why the REST capability hook failed.
#[derive(Debug, PartialEq, Eq)]
pub enum RestError<E> {
    /// The hook ran before the module was initialized; the routes were not
    /// touched.
    NotInitialized,
    /// The routing collaborator refused the routes; its error, unchanged.
    CapabilityRegistrationFailure(E),
}

/// The nodes-registry module: owns its domain service in a write-once cell
/// and publishes a local client for it.
pub struct NodesRegistry {
    service: SingleInitCell<Service>,
}

impl Default for NodesRegistry {
    fn default() -> (m: Self)
        ensures
            m.spec_service() is None,
    {
        NodesRegistry { service: SingleInitCell::new() }
    }
}

impl NodesRegistry {
    /// The domain service, once init has stored it.
    pub closed spec fn spec_service(&self) -> Option<Arc<Service>> {
        self.service@
    }

    /// The module's name, capabilities and published contract.
    pub fn descriptor() -> (d: ModuleDescriptor)
        ensures
            d.name@ == MODULE_NAME@,
            d.capabilities@ == seq![Capability::Rest],
            d.client == Some(NODES_REGISTRY_CONTRACT),
    {
        let mut capabilities: Vec<Capability> = Vec::new();
        capabilities.push(Capability::Rest);
        ModuleDescriptor { name: MODULE_NAME, capabilities, client: Some(NODES_REGISTRY_CONTRACT) }
    }

    /// Init hook with a fresh, empty domain service.
    pub fn init(&mut self, hub: &mut ClientHub<NodesRegistryLocalClient>) -> (r: Result<(), ModuleError>)
        ensures
            init_outcome(*old(self), *final(self), *old(hub), *final(hub), r),
            r is Ok ==> final(self).spec_service()->0@ == Seq::<crate::service::NodeInfo>::empty(),
    {
        self.init_with_service(Service::new(), hub)
    }

    /// Init hook: stores `service` in the module's cell and publishes a local
    /// client for it under the registry's contract. A module that is already
    /// initialized, or a contract that already has a provider, is refused
    /// with `AlreadyInitialized`, and then neither the module nor the hub
    /// changes.
    pub fn init_with_service(
        &mut self,
        service: Service,
        hub: &mut ClientHub<NodesRegistryLocalClient>,
    ) -> (r: Result<(), ModuleError>)
        ensures
            init_outcome(*old(self), *final(self), *old(hub), *final(hub), r),
            r is Ok ==> final(self).spec_service() == Some(Arc::new(service)),
    {
        if self.service.is_filled() || hub.contains(NODES_REGISTRY_CONTRACT) {
            return Err(ModuleError::AlreadyInitialized);
        }
        let service = Arc::new(service);
        let filled = self.service.set(service.clone());
        let client = Arc::new(NodesRegistryLocalClient::new(service));
        let published = hub.register(NODES_REGISTRY_CONTRACT, client);
        proof {
            assert(filled is Ok && published is Ok);
        }
        Ok(())
    }

    /// The domain service, or `NotInitialized` before init has completed.
    pub fn service(&self) -> (r: Result<Arc<Service>, ModuleError>)
        ensures
            r == (match self.spec_service() {
                Some(s) => Ok::<Arc<Service>, ModuleError>(s),
                None => Err(ModuleError::NotInitialized),
            }),
    {
        match self.service.get() {
            Some(s) => Ok(s),
            None => Err(ModuleError::NotInitialized),
        }
    }

    /// REST capability hook: hands the route table and the domain service to
    /// `install`, which adds the routes. Before init it fails with
    /// `NotInitialized` without calling `install`; an error of `install` is
    /// passed on unchanged.
    pub fn register_rest<R, E, F: FnOnce(R, Arc<Service>) -> Result<R, E>>(
        &self,
        router: R,
        install: F,
    ) -> (r: Result<R, RestError<E>>)
        requires
            self.spec_service() matches Some(s) ==> install.requires((router, s)),
        ensures
            self.spec_service() is None ==> r == Err::<R, RestError<E>>(RestError::NotInitialized),
            self.spec_service() matches Some(s) ==> match r {
                Ok(out) => install.ensures((router, s), Ok::<R, E>(out)),
                Err(RestError::CapabilityRegistrationFailure(e)) => install.ensures(
                    (router, s),
                    Err::<R, E>(e),
                ),
                Err(RestError::NotInitialized) => false,
            },
    {
        let service = match self.service.get() {
            Some(s) => s,
            None => return Err(RestError::NotInitialized),
        };
        match install(router, service) {
            Ok(out) => Ok(out),
            Err(e) => Err(RestError::CapabilityRegistrationFailure(e)),
        }
    }
}

/// What one call of the init hook does: it succeeds exactly when the module
/// is not initialized and the contract has no provider; on success the
/// module holds a service and the hub gains exactly the client for it; on
/// failure the error is `AlreadyInitialized` and nothing changes.
pub open spec fn init_outcome(
    before: NodesRegistry,
    after: NodesRegistry,
    hub_before: ClientHub<NodesRegistryLocalClient>,
    hub_after: ClientHub<NodesRegistryLocalClient>,
    r: Result<(), ModuleError>,
) -> bool {
    let fresh = before.spec_service() is None && !hub_before@.contains_key(NODES_REGISTRY_CONTRACT);
    &&& (r is Ok <==> fresh)
    &&& fresh ==> {
        &&& after.spec_service() is Some
        &&& hub_after@ == hub_before@.insert(NODES_REGISTRY_CONTRACT, hub_after@[NODES_REGISTRY_CONTRACT])
        &&& hub_after@[NODES_REGISTRY_CONTRACT].spec_service() == after.spec_service()->0
    }
    &&& !fresh ==> {
        &&& r == Err::<(), ModuleError>(ModuleError::AlreadyInitialized)
        &&& after.spec_service() == before.spec_service()
        &&& hub_after@ == hub_before@
    }
}

/// A second init on an initialized module reports `AlreadyInitialized` and
/// leaves the stored service, and so every later read of it, as it was; the
/// hub is not touched either.
pub proof fn lemma_second_init_changes_nothing(
    before: NodesRegistry,
    after: NodesRegistry,
    hub_before: ClientHub<NodesRegistryLocalClient>,
    hub_after: ClientHub<NodesRegistryLocalClient>,
    r: Result<(), ModuleError>,
)
    requires
        before.spec_service() is Some,
        init_outcome(before, after, hub_before, hub_after, r),
    ensures
        r == Err::<(), ModuleError>(ModuleError::AlreadyInitialized),
        after.spec_service() == before.spec_service(),
        hub_after@ == hub_before@,
{
}

} // verus!
