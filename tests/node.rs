use reth_node_core_runtime::node::{AnyNodeTypes, EngineComponent, FullNodeTypesAdapter, NodeTypes, RpcComponent};

struct Prim;
impl reth_node_core_runtime::node::NodePrimitives for Prim {}
struct Eng;
impl reth_node_core_runtime::node::EngineTypes for Eng {}

fn assert_node_types<T: NodeTypes>(_: &T) {}

#[test]
fn any_node_types_builder_sets_types() {
    let t: AnyNodeTypes = AnyNodeTypes::default();
    let t = t.primitives::<Prim>().engine::<Eng>();
    assert_node_types(&t);
    let _same: AnyNodeTypes<Prim, Eng> = t;
}

#[test]
fn adapter_is_constructible_and_clonable() {
    let a: FullNodeTypesAdapter<AnyNodeTypes, u8, u16> = FullNodeTypesAdapter::new();
    let b = a.clone();
    let _c: FullNodeTypesAdapter<AnyNodeTypes, u8, u16> = Default::default();
    assert_node_types(&b);
}

#[derive(Clone)]
struct Core;

impl NodeTypes for Core {
    type Primitives = ();
    type EngineTypes = ();
}

impl reth_node_core_runtime::node::FullNodeTypes for Core {
    type DB = ();
    type Provider = ();
}

impl reth_node_core_runtime::node::FullNodeComponents for Core {
    type Pool = ();
    type Evm = ();
    type Executor = ();
    type Network = ();
    type PayloadBuilder = ();
    type Tasks = ();
    fn pool(&self) -> &() { &() }
    fn evm_config(&self) -> &() { &() }
    fn block_executor(&self) -> &() { &() }
    fn provider(&self) -> &() { &() }
    fn network(&self) -> &() { &() }
    fn payload_builder(&self) -> &() { &() }
    fn task_executor(&self) -> &() { &() }
}

#[test]
fn absent_components_read_as_absent() {
    let mut absent: Option<()> = None;
    assert_eq!(*EngineComponent::<Core>::engine(&absent), None);
    assert_eq!(*EngineComponent::<Core>::handle(&absent), None);
    assert_eq!(*EngineComponent::<Core>::shutdown_rx_mut(&mut absent), None);
    assert_eq!(*RpcComponent::<Core>::handles(&absent), None);
    assert_eq!(*RpcComponent::<Core>::registry(&absent), None);
}
