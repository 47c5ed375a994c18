use anf::{ANFNodePtr, GraphManager, GraphPtr, HandleError, Value};

fn operands_in(manager: &GraphManager, node: ANFNodePtr) -> Vec<ANFNodePtr> {
    let mut inputs = node.incoming(manager);
    let mut seen = Vec::new();
    while let Some(operand) = inputs.next() {
        seen.push(operand);
    }
    seen
}

#[test]
fn handles_survive_later_allocations() {
    let mut m = GraphManager::new();
    let g = m.new_graph();
    let h = m.new_graph();
    let p = g.add_parameter(&mut m);
    let c = g.constant(&mut m, Value::Graph(h));
    let a = g.apply(&mut m, vec![c, p]);
    g.set_output(&mut m, a);
    g.set_flag(&mut m, String::from("primal"));

    // Enough allocations for both arenas to grow several times.
    for _ in 0..200 {
        let other = m.new_graph();
        let q = other.add_parameter(&mut m);
        let k = other.constant(&mut m, Value::Graph(other));
        let b = other.apply(&mut m, vec![k, q, p]);
        other.set_output(&mut m, b);
    }

    assert!(p.is_parameter(&m));
    assert_eq!(c.value(&m), Some(Value::Graph(h)));
    assert_eq!(operands_in(&m, a), vec![c, p]);
    assert_eq!(g.get_output(&m), Some(a));
    assert_eq!(g.parameters(&m), vec![p]);
    assert!(g.has_flag(&m, &String::from("primal")));
    assert_eq!(h.get_output(&m), None);
    assert_eq!(h.parameters(&m), vec![]);
}

#[test]
fn every_allocation_gets_its_own_handle() {
    let mut m = GraphManager::new();
    let g = m.new_graph();
    let mut graphs: Vec<GraphPtr> = vec![g];
    let mut nodes: Vec<ANFNodePtr> = Vec::new();
    for _ in 0..20 {
        graphs.push(m.new_graph());
        nodes.push(g.add_parameter(&mut m));
        nodes.push(g.constant(&mut m, Value::Graph(g)));
        nodes.push(g.apply(&mut m, Vec::new()));
    }
    for i in 0..graphs.len() {
        for j in 0..i {
            assert_ne!(graphs[i], graphs[j]);
        }
    }
    for i in 0..nodes.len() {
        for j in 0..i {
            assert_ne!(nodes[i], nodes[j]);
        }
    }
}

#[test]
fn handles_are_plain_copies() {
    let mut m = GraphManager::new();
    let g = m.new_graph();
    let same = g;
    let p = g.add_parameter(&mut m);
    let again = p;
    assert_eq!(g, same);
    assert_eq!(p, again);
    assert_eq!(same.parameters(&m), vec![again]);
}

#[test]
fn live_handles_are_found() {
    let mut m = GraphManager::new();
    let g = m.new_graph();
    let p = g.add_parameter(&mut m);
    assert!(m.get_graph(g).is_ok());
    assert!(m.get_node(p).is_ok());
}

#[test]
fn a_handle_of_a_larger_manager_is_stale() {
    let mut big = GraphManager::new();
    let mut last_graph = big.new_graph();
    let mut last_node = last_graph.add_parameter(&mut big);
    for _ in 0..40 {
        last_graph = big.new_graph();
        last_node = last_graph.add_parameter(&mut big);
    }
    let empty = GraphManager::new();

    assert_eq!(empty.get_graph(last_graph).err(), Some(HandleError::StaleHandle));
    assert_eq!(empty.get_node(last_node).err(), Some(HandleError::StaleHandle));
    assert!(big.get_graph(last_graph).is_ok());
    assert!(big.get_node(last_node).is_ok());
}

#[test]
fn an_empty_manager_has_nothing() {
    let mut other = GraphManager::new();
    let g = other.new_graph();
    let p = g.add_parameter(&mut other);

    let m = GraphManager::new();
    assert_eq!(m.get_graph(g).err(), Some(HandleError::StaleHandle));
    assert_eq!(m.get_node(p).err(), Some(HandleError::StaleHandle));
    assert!(!m.is_root(p));
}
