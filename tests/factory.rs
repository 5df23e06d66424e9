use reth_node_core_runtime::factory::{ChainSpec, Factory, Hook, InspectorStack, InspectorStackConfig};

fn spec() -> ChainSpec {
    ChainSpec { chain_id: 1, genesis_hash: [4; 32] }
}

#[test]
fn factory_starts_without_stack() {
    let f = Factory::new(spec());
    assert_eq!(*f.chain_spec(), spec());
    assert_eq!(f.stack(), None);
}

#[test]
fn stack_is_attached_by_value_or_config() {
    let config = InspectorStackConfig { use_printer_tracer: true, hook: Hook::Block(7) };
    let f = Factory::new(spec()).with_stack_config(config);
    assert_eq!(f.stack(), Some(InspectorStack { config }));
    let other = InspectorStack::new(InspectorStackConfig { use_printer_tracer: false, hook: Hook::All });
    let g = f.with_stack(other);
    assert_eq!(g.stack(), Some(other));
    assert_eq!(g.chain_spec().chain_id, 1);
}

#[test]
fn hooks_select_what_is_inspected() {
    let s = InspectorStack::new(InspectorStackConfig { use_printer_tracer: false, hook: Hook::Block(7) });
    assert!(s.should_inspect(7, &[0; 32]));
    assert!(!s.should_inspect(8, &[0; 32]));
    let t = InspectorStack::new(InspectorStackConfig { use_printer_tracer: false, hook: Hook::Transaction([3; 32]) });
    assert!(t.should_inspect(1, &[3; 32]));
    assert!(!t.should_inspect(1, &[2; 32]));
    let n = InspectorStack::new(InspectorStackConfig { use_printer_tracer: false, hook: Hook::Never });
    assert!(!n.should_inspect(7, &[3; 32]));
}
