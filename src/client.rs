use crate::service::{NodeError, NodeInfo, Service, first_with_id};
use std::sync::Arc;
use vstd::prelude::*;

verus! {

/// The registry's client contract served in-process: every call goes to the
/// shared domain service and comes back unchanged.
pub struct NodesRegistryLocalClient {
    service: Arc<Service>,
}

impl NodesRegistryLocalClient {
    /// Wraps an already built service.
    pub fn new(service: Arc<Service>) -> (c: Self)
        ensures
            c.spec_service() == service,
    {
        NodesRegistryLocalClient { service }
    }

    /// The service this client forwards to.
    pub closed spec fn spec_service(&self) -> Arc<Service> {
        self.service
    }

    /// The shared service behind this client.
    pub fn service(&self) -> (r: Arc<Service>)
        ensures
            r == self.spec_service(),
    {
        self.service.clone()
    }

    /// Forwards to `Service::list_nodes`.
    pub fn list_nodes(&self) -> (r: Vec<NodeInfo>)
        ensures
            r@ == self.spec_service()@,
    {
        self.service.list_nodes()
    }

    /// Forwards to `Service::get_node`.
    pub fn get_node(&self, id: u64) -> (r: Result<NodeInfo, NodeError>)
        ensures
            r == (match first_with_id(self.spec_service()@, id) {
                Some(n) => Ok::<NodeInfo, NodeError>(n),
                None => Err(NodeError::NotFound),
            }),
    {
        self.service.get_node(id)
    }
}

} // verus!
