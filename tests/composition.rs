use nodes_registry::capability::{advance, Capability, LifecycleStep, ModuleError, ModuleState};
use nodes_registry::cell::{AlreadyFilled, SingleInitCell};
use nodes_registry::client::NodesRegistryLocalClient;
use nodes_registry::hub::{AlreadyRegistered, ClientHub};
use nodes_registry::module::{NodesRegistry, RestError, MODULE_NAME, NODES_REGISTRY_CONTRACT};
use nodes_registry::service::{NodeError, NodeInfo, Service};
use std::cell::Cell;
use std::sync::Arc;

fn node(id: u64, cpu_cores: u32, memory_mb: u64) -> NodeInfo {
    NodeInfo { id, cpu_cores, memory_mb }
}

fn add_route(mut routes: Vec<String>, _service: Arc<Service>) -> Result<Vec<String>, String> {
    routes.push("/nodes".to_string());
    Ok(routes)
}

#[test]
fn cell_starts_empty_and_fills_once() {
    let mut cell: SingleInitCell<u64> = SingleInitCell::new();
    assert!(cell.get().is_none());
    assert!(!cell.is_filled());
    let first = Arc::new(7u64);
    assert_eq!(cell.set(first.clone()), Ok(()));
    assert!(cell.is_filled());
    let read = cell.get().unwrap();
    assert!(Arc::ptr_eq(&read, &first));
    assert_eq!(cell.set(Arc::new(9u64)), Err(AlreadyFilled));
    let again = cell.get().unwrap();
    assert!(Arc::ptr_eq(&again, &first));
    assert_eq!(*again, 7);
}

#[test]
fn resolve_before_register_is_absent() {
    let hub: ClientHub<u64> = ClientHub::new();
    assert!(hub.resolve(NODES_REGISTRY_CONTRACT).is_none());
    assert!(!hub.contains(NODES_REGISTRY_CONTRACT));
    let mut hub2: ClientHub<u64> = ClientHub::new();
    assert_eq!(hub2.register(2, Arc::new(5)), Ok(()));
    assert!(hub2.resolve(3).is_none());
}

#[test]
fn resolve_after_register_shares_the_instance() {
    let mut hub: ClientHub<u64> = ClientHub::new();
    let x = Arc::new(42u64);
    assert_eq!(hub.register(4, x.clone()), Ok(()));
    assert!(Arc::ptr_eq(&hub.resolve(4).unwrap(), &x));
    assert_eq!(hub.register(8, Arc::new(1)), Ok(()));
    assert!(Arc::ptr_eq(&hub.resolve(4).unwrap(), &x));
    assert_eq!(*hub.resolve(8).unwrap(), 1);
}

#[test]
fn duplicate_register_is_refused_and_keeps_first() {
    let mut hub: ClientHub<u64> = ClientHub::new();
    let x = Arc::new(1u64);
    assert_eq!(hub.register(4, x.clone()), Ok(()));
    assert_eq!(hub.register(4, Arc::new(2)), Err(AlreadyRegistered));
    let got = hub.resolve(4).unwrap();
    assert!(Arc::ptr_eq(&got, &x));
    assert_eq!(*got, 1);
}

#[test]
fn hook_before_init_is_not_initialized_and_untouched() {
    let module = NodesRegistry::default();
    let calls = Cell::new(0u32);
    let routes = vec!["/health".to_string()];
    let r = module.register_rest(routes, |mut rt: Vec<String>, _s: Arc<Service>| -> Result<Vec<String>, String> {
        calls.set(calls.get() + 1);
        rt.push("/nodes".to_string());
        Ok(rt)
    });
    assert_eq!(r, Err(RestError::NotInitialized));
    assert_eq!(calls.get(), 0);
    assert_eq!(module.service().err(), Some(ModuleError::NotInitialized));
}

#[test]
fn nodes_registry_init_then_rest_then_second_init() {
    let d = NodesRegistry::descriptor();
    assert_eq!(d.name, "nodes-registry");
    assert_eq!(MODULE_NAME, "nodes-registry");
    assert_eq!(d.capabilities, vec![Capability::Rest]);
    assert!(d.declares(Capability::Rest));
    assert_eq!(Capability::Rest.tag(), "exposes-http");
    assert_eq!(d.client, Some(NODES_REGISTRY_CONTRACT));

    let mut hub: ClientHub<NodesRegistryLocalClient> = ClientHub::new();
    let mut module = NodesRegistry::default();
    assert_eq!(module.init(&mut hub), Ok(()));
    let service = module.service().unwrap();
    assert_eq!(service.node_count(), 0);
    let client = hub.resolve(NODES_REGISTRY_CONTRACT).unwrap();
    assert!(Arc::ptr_eq(&client.service(), &service));

    let routes = module.register_rest(vec!["/health".to_string()], add_route).unwrap();
    assert_eq!(routes, vec!["/health".to_string(), "/nodes".to_string()]);

    assert_eq!(module.init(&mut hub), Err(ModuleError::AlreadyInitialized));
    assert!(Arc::ptr_eq(&module.service().unwrap(), &service));
    assert!(Arc::ptr_eq(&hub.resolve(NODES_REGISTRY_CONTRACT).unwrap(), &client));
    assert_eq!(routes, vec!["/health".to_string(), "/nodes".to_string()]);
}

#[test]
fn other_module_resolves_same_adapter_reaching_service() {
    let mut hub: ClientHub<NodesRegistryLocalClient> = ClientHub::new();
    let mut module = NodesRegistry::default();
    let nodes = vec![node(1, 4, 8192), node(2, 16, 65536)];
    assert_eq!(module.init_with_service(Service::from_nodes(nodes.clone()), &mut hub), Ok(()));
    let published = hub.resolve(NODES_REGISTRY_CONTRACT).unwrap();

    let consumer_view = hub.resolve(NODES_REGISTRY_CONTRACT).unwrap();
    assert!(Arc::ptr_eq(&consumer_view, &published));
    assert!(Arc::ptr_eq(&consumer_view.service(), &module.service().unwrap()));
    assert_eq!(consumer_view.list_nodes(), nodes);
    assert_eq!(consumer_view.get_node(2), Ok(node(2, 16, 65536)));
    assert_eq!(consumer_view.get_node(3), Err(NodeError::NotFound));
}

#[test]
fn init_refused_when_contract_already_published() {
    let mut hub: ClientHub<NodesRegistryLocalClient> = ClientHub::new();
    let mut first = NodesRegistry::default();
    assert_eq!(first.init(&mut hub), Ok(()));
    let published = hub.resolve(NODES_REGISTRY_CONTRACT).unwrap();
    let mut second = NodesRegistry::default();
    assert_eq!(second.init(&mut hub), Err(ModuleError::AlreadyInitialized));
    assert_eq!(second.service().err(), Some(ModuleError::NotInitialized));
    assert!(Arc::ptr_eq(&hub.resolve(NODES_REGISTRY_CONTRACT).unwrap(), &published));
}

#[test]
fn routing_error_is_passed_on_unchanged() {
    let mut hub: ClientHub<NodesRegistryLocalClient> = ClientHub::new();
    let mut module = NodesRegistry::default();
    assert_eq!(module.init(&mut hub), Ok(()));
    let r = module.register_rest(vec!["/nodes".to_string()], |rt: Vec<String>, _s: Arc<Service>| -> Result<Vec<String>, String> {
        if rt.contains(&"/nodes".to_string()) {
            Err("conflicting path /nodes".to_string())
        } else {
            Ok(rt)
        }
    });
    assert_eq!(r, Err(RestError::CapabilityRegistrationFailure("conflicting path /nodes".to_string())));
}

#[test]
fn service_lookups() {
    let empty = Service::new();
    assert_eq!(empty.node_count(), 0);
    assert_eq!(empty.list_nodes(), Vec::<NodeInfo>::new());
    assert_eq!(empty.get_node(1), Err(NodeError::NotFound));
    let s = Service::from_nodes(vec![node(5, 2, 1024), node(5, 8, 2048), node(6, 1, 512)]);
    assert_eq!(s.node_count(), 3);
    assert_eq!(s.get_node(5), Ok(node(5, 2, 1024)));
    assert_eq!(s.get_node(6), Ok(node(6, 1, 512)));
}

#[test]
fn lifecycle_steps() {
    assert_eq!(advance(ModuleState::Declared, LifecycleStep::Init), Ok(ModuleState::Initialized));
    assert_eq!(advance(ModuleState::Initialized, LifecycleStep::Init), Err(ModuleError::AlreadyInitialized));
    assert_eq!(advance(ModuleState::CapabilitiesBound, LifecycleStep::Init), Err(ModuleError::AlreadyInitialized));
    assert_eq!(advance(ModuleState::Declared, LifecycleStep::BindCapabilities), Err(ModuleError::NotInitialized));
    assert_eq!(advance(ModuleState::Initialized, LifecycleStep::BindCapabilities), Ok(ModuleState::CapabilitiesBound));
}
