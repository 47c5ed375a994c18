use anf::{ANFNodePtr, GraphManager, Value};

#[test]
fn parameters_come_in_call_order() {
    let mut m = GraphManager::new();
    let g = m.new_graph();
    let mut added: Vec<ANFNodePtr> = Vec::new();
    for k in 0..7 {
        assert_eq!(g.parameters(&m).len(), k);
        added.push(g.add_parameter(&mut m));
    }
    assert_eq!(g.parameters(&m).len(), 7);
    assert_eq!(g.parameters(&m), added);
}

#[test]
fn parameters_keep_their_order_among_other_allocations() {
    let mut m = GraphManager::new();
    let g = m.new_graph();
    let h = m.new_graph();
    let a = g.add_parameter(&mut m);
    let x = h.add_parameter(&mut m);
    let c = g.constant(&mut m, Value::Graph(h));
    let b = g.add_parameter(&mut m);
    let _call = g.apply(&mut m, vec![c, a, b]);
    let y = h.add_parameter(&mut m);
    let d = g.add_parameter(&mut m);

    assert_eq!(g.parameters(&m), vec![a, b, d]);
    assert_eq!(h.parameters(&m), vec![x, y]);
}

#[test]
fn a_new_graph_is_empty() {
    let mut m = GraphManager::new();
    let g = m.new_graph();
    assert_eq!(g.parameters(&m), vec![]);
    assert_eq!(g.get_output(&m), None);
    assert!(!g.has_flag(&m, &String::from("any")));
    assert!(!g.has_flag(&m, &String::new()));
}

#[test]
fn alloc_param_appends_to_the_graph() {
    let mut m = GraphManager::new();
    let g = m.new_graph();
    let first = m.alloc_param(g);
    let second = g.add_parameter(&mut m);
    let third = m.alloc_param(g);
    assert_eq!(g.parameters(&m), vec![first, second, third]);
    assert!(first.is_parameter(&m));
    assert!(third.is_parameter(&m));
}

#[test]
fn the_latest_output_wins() {
    let mut m = GraphManager::new();
    let g = m.new_graph();
    let p = g.add_parameter(&mut m);
    let a = g.apply(&mut m, vec![p]);
    assert_eq!(g.get_output(&m), None);
    g.set_output(&mut m, p);
    assert_eq!(g.get_output(&m), Some(p));
    g.set_output(&mut m, a);
    assert_eq!(g.get_output(&m), Some(a));
    g.set_output(&mut m, a);
    assert_eq!(g.get_output(&m), Some(a));
    assert_eq!(g.parameters(&m), vec![p]);
}

#[test]
fn output_belongs_to_one_graph() {
    let mut m = GraphManager::new();
    let g = m.new_graph();
    let h = m.new_graph();
    let p = g.add_parameter(&mut m);
    g.set_output(&mut m, p);
    assert_eq!(g.get_output(&m), Some(p));
    assert_eq!(h.get_output(&m), None);
}

#[test]
fn flags_are_a_set() {
    let mut m = GraphManager::new();
    let g = m.new_graph();
    let flag = String::from("core");
    let other = String::from("Core");

    assert!(!g.has_flag(&m, &flag));
    g.set_flag(&mut m, flag.clone());
    assert!(g.has_flag(&m, &flag));
    assert!(!g.has_flag(&m, &other));
    g.set_flag(&mut m, flag.clone());
    assert!(g.has_flag(&m, &flag));
    g.set_flag(&mut m, other.clone());
    assert!(g.has_flag(&m, &flag));
    assert!(g.has_flag(&m, &other));
}

#[test]
fn flags_belong_to_one_graph() {
    let mut m = GraphManager::new();
    let g = m.new_graph();
    let h = m.new_graph();
    g.set_flag(&mut m, String::from("grad"));
    assert!(g.has_flag(&m, &String::from("grad")));
    assert!(!h.has_flag(&m, &String::from("grad")));
}

#[test]
fn the_empty_string_is_a_flag_like_any_other() {
    let mut m = GraphManager::new();
    let g = m.new_graph();
    g.set_flag(&mut m, String::new());
    assert!(g.has_flag(&m, &String::new()));
    assert!(!g.has_flag(&m, &String::from(" ")));
}

#[test]
fn flags_leave_the_rest_of_the_graph_alone() {
    let mut m = GraphManager::new();
    let g = m.new_graph();
    let p = g.add_parameter(&mut m);
    g.set_output(&mut m, p);
    g.set_flag(&mut m, String::from("x"));
    assert_eq!(g.parameters(&m), vec![p]);
    assert_eq!(g.get_output(&m), Some(p));
}
