use std::collections::HashMap;

use pipeline_graph::eval::evaluate_input;
use pipeline_graph::eval::evaluate_node;
use pipeline_graph::eval::populate_output;
use pipeline_graph::eval::OutputsCache;
use pipeline_graph::graph::Graph;
use pipeline_graph::template::MyNodeData;
use pipeline_graph::template::MyNodeTemplate;
use pipeline_graph::DepthaiNode;
use pipeline_graph::EvalError;
use pipeline_graph::MyValueType;
use pipeline_graph::Vec2;

fn add_template_node(graph: &mut Graph, template: MyNodeTemplate) -> usize {
    let label = template.node_finder_label();
    let data = MyNodeData { template: template.clone() };
    let id = graph.add_node(label, data);
    template.build_node(graph, id);
    id
}

fn set_scalar(graph: &mut Graph, node: usize, name: &str, value: i64) {
    let input = graph.nodes[node].get_input(name).unwrap();
    graph.inputs[input].value = MyValueType::Scalar { value };
}

fn set_vector(graph: &mut Graph, node: usize, name: &str, x: i64, y: i64) {
    let input = graph.nodes[node].get_input(name).unwrap();
    graph.inputs[input].value = MyValueType::Vec2 { value: Vec2 { x, y } };
}

#[test]
fn add_scalar_constants() {
    let mut graph = Graph::new();
    let node = add_template_node(&mut graph, MyNodeTemplate::AddScalar);
    set_scalar(&mut graph, node, "A", 2);
    set_scalar(&mut graph, node, "B", 3);
    let mut cache: OutputsCache = HashMap::new();
    assert_eq!(
        evaluate_node(&graph, node, &mut cache),
        Ok(MyValueType::Scalar { value: 5 })
    );
    let out = graph.nodes[node].get_output("out").unwrap();
    assert_eq!(cache.get(&out), Some(&MyValueType::Scalar { value: 5 }));
}

#[test]
fn subtract_scalar_constants() {
    let mut graph = Graph::new();
    let node = add_template_node(&mut graph, MyNodeTemplate::SubtractScalar);
    set_scalar(&mut graph, node, "A", 2);
    set_scalar(&mut graph, node, "B", 9);
    let mut cache: OutputsCache = HashMap::new();
    assert_eq!(
        evaluate_node(&graph, node, &mut cache),
        Ok(MyValueType::Scalar { value: -7 })
    );
}

#[test]
fn vector_arithmetic() {
    let mut graph = Graph::new();
    let add = add_template_node(&mut graph, MyNodeTemplate::AddVector);
    set_vector(&mut graph, add, "v1", 1, 2);
    set_vector(&mut graph, add, "v2", 30, 40);
    let sub = add_template_node(&mut graph, MyNodeTemplate::SubtractVector);
    set_vector(&mut graph, sub, "v1", 5, 5);
    set_vector(&mut graph, sub, "v2", 1, 9);
    let mul = add_template_node(&mut graph, MyNodeTemplate::VectorTimesScalar);
    set_scalar(&mut graph, mul, "scalar", -3);
    set_vector(&mut graph, mul, "vector", 2, 7);
    let mk = add_template_node(&mut graph, MyNodeTemplate::MakeVector);
    set_scalar(&mut graph, mk, "x", 11);
    set_scalar(&mut graph, mk, "y", 12);
    let mut cache: OutputsCache = HashMap::new();
    assert_eq!(
        evaluate_node(&graph, add, &mut cache),
        Ok(MyValueType::Vec2 { value: Vec2 { x: 31, y: 42 } })
    );
    assert_eq!(
        evaluate_node(&graph, sub, &mut cache),
        Ok(MyValueType::Vec2 { value: Vec2 { x: 4, y: -4 } })
    );
    assert_eq!(
        evaluate_node(&graph, mul, &mut cache),
        Ok(MyValueType::Vec2 { value: Vec2 { x: -6, y: -21 } })
    );
    assert_eq!(
        evaluate_node(&graph, mk, &mut cache),
        Ok(MyValueType::Vec2 { value: Vec2 { x: 11, y: 12 } })
    );
}

#[test]
fn chained_nodes_pull_upstream_values() {
    let mut graph = Graph::new();
    let maker = add_template_node(&mut graph, MyNodeTemplate::MakeScalar);
    set_scalar(&mut graph, maker, "value", 21);
    let adder = add_template_node(&mut graph, MyNodeTemplate::AddScalar);
    set_scalar(&mut graph, adder, "B", 1);
    let maker_out = graph.nodes[maker].get_output("out").unwrap();
    let adder_a = graph.nodes[adder].get_input("A").unwrap();
    graph.add_connection(maker_out, adder_a);
    let mut cache: OutputsCache = HashMap::new();
    assert_eq!(
        evaluate_node(&graph, adder, &mut cache),
        Ok(MyValueType::Scalar { value: 22 })
    );
    // The upstream result was memoized on the way.
    assert_eq!(cache.get(&maker_out), Some(&MyValueType::Scalar { value: 21 }));
}

#[test]
fn fan_out_reuses_cached_output() {
    let mut graph = Graph::new();
    let maker = add_template_node(&mut graph, MyNodeTemplate::MakeScalar);
    set_scalar(&mut graph, maker, "value", 10);
    let adder = add_template_node(&mut graph, MyNodeTemplate::AddScalar);
    let maker_out = graph.nodes[maker].get_output("out").unwrap();
    let adder_a = graph.nodes[adder].get_input("A").unwrap();
    let adder_b = graph.nodes[adder].get_input("B").unwrap();
    graph.add_connection(maker_out, adder_a);
    graph.add_connection(maker_out, adder_b);
    let mut cache: OutputsCache = HashMap::new();
    assert_eq!(
        evaluate_node(&graph, adder, &mut cache),
        Ok(MyValueType::Scalar { value: 20 })
    );
}

#[test]
fn cached_value_wins_over_recomputation() {
    let mut graph = Graph::new();
    let maker = add_template_node(&mut graph, MyNodeTemplate::MakeScalar);
    set_scalar(&mut graph, maker, "value", 10);
    let adder = add_template_node(&mut graph, MyNodeTemplate::AddScalar);
    set_scalar(&mut graph, adder, "B", 0);
    let maker_out = graph.nodes[maker].get_output("out").unwrap();
    let adder_a = graph.nodes[adder].get_input("A").unwrap();
    graph.add_connection(maker_out, adder_a);
    let mut cache: OutputsCache = HashMap::new();
    cache.insert(maker_out, MyValueType::Scalar { value: 99 });
    assert_eq!(
        evaluate_node(&graph, adder, &mut cache),
        Ok(MyValueType::Scalar { value: 99 })
    );
}

#[test]
fn overflow_is_reported() {
    let mut graph = Graph::new();
    let node = add_template_node(&mut graph, MyNodeTemplate::AddScalar);
    set_scalar(&mut graph, node, "A", i64::MAX);
    set_scalar(&mut graph, node, "B", 1);
    let mut cache: OutputsCache = HashMap::new();
    assert_eq!(evaluate_node(&graph, node, &mut cache), Err(EvalError::Overflow));
}

#[test]
fn cycle_is_reported() {
    let mut graph = Graph::new();
    let first = add_template_node(&mut graph, MyNodeTemplate::AddScalar);
    let second = add_template_node(&mut graph, MyNodeTemplate::AddScalar);
    let first_out = graph.nodes[first].get_output("out").unwrap();
    let second_out = graph.nodes[second].get_output("out").unwrap();
    let first_a = graph.nodes[first].get_input("A").unwrap();
    let second_a = graph.nodes[second].get_input("A").unwrap();
    graph.add_connection(first_out, second_a);
    graph.add_connection(second_out, first_a);
    let mut cache: OutputsCache = HashMap::new();
    assert_eq!(evaluate_node(&graph, first, &mut cache), Err(EvalError::Cycle));
}

#[test]
fn type_mismatch_is_reported() {
    let mut graph = Graph::new();
    let mk = add_template_node(&mut graph, MyNodeTemplate::MakeVector);
    set_scalar(&mut graph, mk, "x", 1);
    set_scalar(&mut graph, mk, "y", 2);
    let adder = add_template_node(&mut graph, MyNodeTemplate::AddScalar);
    set_scalar(&mut graph, adder, "B", 1);
    let mk_out = graph.nodes[mk].get_output("out").unwrap();
    let adder_a = graph.nodes[adder].get_input("A").unwrap();
    graph.add_connection(mk_out, adder_a);
    let mut cache: OutputsCache = HashMap::new();
    assert_eq!(
        evaluate_node(&graph, adder, &mut cache),
        Err(EvalError::NotAScalar)
    );
}

#[test]
fn template_without_value_input_fails() {
    let mut graph = Graph::new();
    let node = add_template_node(&mut graph, MyNodeTemplate::CreateStereoDepth);
    let mut cache: OutputsCache = HashMap::new();
    assert_eq!(
        evaluate_node(&graph, node, &mut cache),
        Err(EvalError::NoSuchParameter)
    );
}

#[test]
fn color_camera_passes_queue_through() {
    let mut graph = Graph::new();
    let node = add_template_node(&mut graph, MyNodeTemplate::CreateColorCamera);
    let mut cache: OutputsCache = HashMap::new();
    assert_eq!(
        evaluate_node(&graph, node, &mut cache),
        Ok(MyValueType::Queue(DepthaiNode::ColorCamera))
    );
    let video = graph.nodes[node].get_output("video").unwrap();
    assert_eq!(
        cache.get(&video),
        Some(&MyValueType::Queue(DepthaiNode::ColorCamera))
    );
}

#[test]
fn xlink_out_misses_its_output_port() {
    // The XLink-out node stores its result under a port name the template
    // does not build, so evaluating it always fails.
    let mut graph = Graph::new();
    let node = add_template_node(&mut graph, MyNodeTemplate::CreateXLinkOut);
    let mut cache: OutputsCache = HashMap::new();
    assert_eq!(
        evaluate_node(&graph, node, &mut cache),
        Err(EvalError::NoSuchParameter)
    );
}

#[test]
fn evaluate_input_returns_inline_constant() {
    let mut graph = Graph::new();
    let node = add_template_node(&mut graph, MyNodeTemplate::AddScalar);
    set_scalar(&mut graph, node, "A", 41);
    let mut cache: OutputsCache = HashMap::new();
    assert_eq!(
        evaluate_input(&graph, node, "A", &mut cache),
        Ok(MyValueType::Scalar { value: 41 })
    );
    assert_eq!(
        evaluate_input(&graph, node, "missing", &mut cache),
        Err(EvalError::NoSuchParameter)
    );
}

#[test]
fn populate_output_fills_cache() {
    let mut graph = Graph::new();
    let node = add_template_node(&mut graph, MyNodeTemplate::AddScalar);
    let mut cache: OutputsCache = HashMap::new();
    let value = MyValueType::Scalar { value: 8 };
    assert_eq!(populate_output(&graph, &mut cache, node, "out", value), Ok(value));
    let out = graph.nodes[node].get_output("out").unwrap();
    assert_eq!(cache.get(&out), Some(&value));
    assert_eq!(
        populate_output(&graph, &mut cache, node, "missing", value),
        Err(EvalError::NoSuchParameter)
    );
}

#[test]
fn uncached_upstream_output_is_reported() {
    // Evaluating a colour camera fills only its `video` output, so a
    // consumer wired to `raw` finds no cached value.
    let mut graph = Graph::new();
    let camera = add_template_node(&mut graph, MyNodeTemplate::CreateColorCamera);
    let adder = add_template_node(&mut graph, MyNodeTemplate::AddScalar);
    set_scalar(&mut graph, adder, "B", 1);
    let raw = graph.nodes[camera].get_output("raw").unwrap();
    let adder_a = graph.nodes[adder].get_input("A").unwrap();
    graph.add_connection(raw, adder_a);
    let mut cache: OutputsCache = HashMap::new();
    assert_eq!(
        evaluate_node(&graph, adder, &mut cache),
        Err(EvalError::OutputNotComputed)
    );
}
