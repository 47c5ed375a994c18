use anf::{ANFNodePtr, GraphManager, Value, ValueKind};

fn operands(manager: &GraphManager, node: ANFNodePtr) -> Vec<ANFNodePtr> {
    let mut inputs = node.incoming(manager);
    let mut seen = Vec::new();
    while let Some(operand) = inputs.next() {
        seen.push(operand);
    }
    seen
}

fn kinds(manager: &GraphManager, node: ANFNodePtr) -> (bool, bool, bool) {
    (node.is_apply(manager), node.is_parameter(manager), node.is_constant(manager))
}

#[test]
fn apply_keeps_its_operands() {
    let mut m = GraphManager::new();
    let g = m.new_graph();
    let f = g.constant(&mut m, Value::Graph(g));
    let x = g.add_parameter(&mut m);
    let y = g.add_parameter(&mut m);
    let list = vec![f, y, x, y];
    let a = g.apply(&mut m, list.clone());

    assert_eq!(operands(&m, a), list);
    assert_eq!(operands(&m, a), list);
    let b = m.alloc_apply(vec![a, a], g);
    assert_eq!(operands(&m, a), list);
    assert_eq!(operands(&m, b), vec![a, a]);
}

#[test]
fn apply_without_operands() {
    let mut m = GraphManager::new();
    let g = m.new_graph();
    let a = g.apply(&mut m, Vec::new());
    assert!(a.is_apply(&m));
    assert_eq!(operands(&m, a), vec![]);
    assert!(!a.is_apply_of(&m, Value::Graph(g)));
}

#[test]
fn two_walks_do_not_disturb_each_other() {
    let mut m = GraphManager::new();
    let g = m.new_graph();
    let x = g.add_parameter(&mut m);
    let y = g.add_parameter(&mut m);
    let a = g.apply(&mut m, vec![x, y]);

    let mut first = a.incoming(&m);
    let mut second = a.incoming(&m);
    assert_eq!(first.next(), Some(x));
    assert_eq!(second.next(), Some(x));
    assert_eq!(first.next(), Some(y));
    assert_eq!(first.next(), None);
    assert_eq!(second.next(), Some(y));
    assert_eq!(second.next(), None);
}

#[test]
fn a_walk_that_ended_stays_ended() {
    let mut m = GraphManager::new();
    let g = m.new_graph();
    let x = g.add_parameter(&mut m);
    let a = g.apply(&mut m, vec![x]);
    let mut inputs = a.incoming(&m);
    assert_eq!(inputs.next(), Some(x));
    for _ in 0..5 {
        assert_eq!(inputs.next(), None);
    }
}

#[test]
fn a_walk_is_a_snapshot() {
    let mut m = GraphManager::new();
    let g = m.new_graph();
    let x = g.add_parameter(&mut m);
    let a = g.apply(&mut m, vec![x, x]);
    let mut inputs = a.incoming(&m);
    let _later = g.apply(&mut m, vec![a]);
    let _more = g.add_parameter(&mut m);
    assert_eq!(inputs.next(), Some(x));
    assert_eq!(inputs.next(), Some(x));
    assert_eq!(inputs.next(), None);
}

#[test]
fn parameters_and_constants_have_no_operands() {
    let mut m = GraphManager::new();
    let g = m.new_graph();
    let p = g.add_parameter(&mut m);
    let c = g.constant(&mut m, Value::Graph(g));
    assert_eq!(operands(&m, p), vec![]);
    assert_eq!(operands(&m, c), vec![]);
}

#[test]
fn a_node_is_of_exactly_one_kind() {
    let mut m = GraphManager::new();
    let g = m.new_graph();
    let p = g.add_parameter(&mut m);
    let c = g.constant(&mut m, Value::Graph(g));
    let a = g.apply(&mut m, vec![c, p]);
    let q = m.alloc_param(g);
    let d = m.alloc_constant(Value::Graph(g));
    let b = m.alloc_apply(vec![], g);

    assert_eq!(kinds(&m, a), (true, false, false));
    assert_eq!(kinds(&m, b), (true, false, false));
    assert_eq!(kinds(&m, p), (false, true, false));
    assert_eq!(kinds(&m, q), (false, true, false));
    assert_eq!(kinds(&m, c), (false, false, true));
    assert_eq!(kinds(&m, d), (false, false, true));
}

#[test]
fn a_constant_gives_its_payload_back() {
    let mut m = GraphManager::new();
    let g = m.new_graph();
    let h = m.new_graph();
    let c = g.constant(&mut m, Value::Graph(h));
    let d = m.alloc_constant(Value::Graph(g));

    assert_eq!(c.value(&m), Some(Value::Graph(h)));
    assert_eq!(d.value(&m), Some(Value::Graph(g)));
    assert_ne!(c.value(&m), d.value(&m));
    assert!(c.is_constant(&m));
    assert!(!c.is_apply(&m));
    assert!(!c.is_parameter(&m));
    assert!(c.is_constant_graph(&m));
    assert!(c.is_constant_of(&m, ValueKind::Graph));
}

#[test]
fn only_constants_have_a_payload() {
    let mut m = GraphManager::new();
    let g = m.new_graph();
    let p = g.add_parameter(&mut m);
    let a = g.apply(&mut m, vec![p]);
    assert_eq!(p.value(&m), None);
    assert_eq!(a.value(&m), None);
    assert!(!p.is_constant_graph(&m));
    assert!(!a.is_constant_graph(&m));
    assert!(!p.is_constant_of(&m, ValueKind::Graph));
    assert!(!a.is_constant_of(&m, ValueKind::Graph));
}

#[test]
fn the_kind_of_a_payload() {
    let mut m = GraphManager::new();
    let g = m.new_graph();
    assert_eq!(Value::Graph(g).kind(), ValueKind::Graph);
}

#[test]
fn apply_of_a_known_operator() {
    let mut m = GraphManager::new();
    let add = m.new_graph();
    let mul = m.new_graph();
    let g = m.new_graph();
    let add_c = g.constant(&mut m, Value::Graph(add));
    let x = g.add_parameter(&mut m);
    let sum = g.apply(&mut m, vec![add_c, x, x]);
    let odd = g.apply(&mut m, vec![x, add_c]);
    let nested = g.apply(&mut m, vec![sum, x]);

    assert!(sum.is_apply_of(&m, Value::Graph(add)));
    assert!(!sum.is_apply_of(&m, Value::Graph(mul)));
    assert!(!odd.is_apply_of(&m, Value::Graph(add)));
    assert!(!nested.is_apply_of(&m, Value::Graph(add)));
    assert!(!add_c.is_apply_of(&m, Value::Graph(add)));
    assert!(!x.is_apply_of(&m, Value::Graph(add)));
}

#[test]
fn apply_of_an_operand_from_elsewhere() {
    let mut big = GraphManager::new();
    let far = big.new_graph();
    let mut foreign = far.constant(&mut big, Value::Graph(far));
    for _ in 0..40 {
        foreign = far.constant(&mut big, Value::Graph(far));
    }

    let mut m = GraphManager::new();
    let g = m.new_graph();
    let a = g.apply(&mut m, vec![foreign]);
    assert!(m.get_node(foreign).is_err());
    assert!(a.is_apply(&m));
    assert!(!a.is_apply_of(&m, Value::Graph(far)));
}
