use pipeline_graph::graph::Graph;
use pipeline_graph::graph::InputParamKind;
use pipeline_graph::template::MyNodeData;
use pipeline_graph::template::MyNodeTemplate;
use pipeline_graph::DepthaiNode;
use pipeline_graph::MyDataType;
use pipeline_graph::MyValueType;

fn build(template: MyNodeTemplate) -> (Graph, usize) {
    let mut graph = Graph::new();
    let data = MyNodeData { template: template.clone() };
    let id = graph.add_node(template.node_finder_label(), data);
    template.build_node(&mut graph, id);
    (graph, id)
}

fn input_names(graph: &Graph, id: usize) -> Vec<String> {
    graph.nodes[id].inputs.iter().map(|p| p.0.clone()).collect()
}

fn output_names(graph: &Graph, id: usize) -> Vec<String> {
    graph.nodes[id].outputs.iter().map(|p| p.0.clone()).collect()
}

#[test]
fn add_scalar_ports() {
    let (graph, id) = build(MyNodeTemplate::AddScalar);
    assert_eq!(input_names(&graph, id), vec!["A", "B"]);
    assert_eq!(output_names(&graph, id), vec!["out"]);
    let a = graph.nodes[id].get_input("A").unwrap();
    assert_eq!(graph.inputs[a].typ, MyDataType::Scalar);
    assert_eq!(graph.inputs[a].value, MyValueType::Scalar { value: 0 });
    assert_eq!(graph.inputs[a].kind, InputParamKind::ConnectionOrConstant);
    assert!(graph.inputs[a].shown_inline);
    let out = graph.nodes[id].get_output("out").unwrap();
    assert_eq!(graph.outputs[out].typ, MyDataType::Scalar);
    assert_eq!(graph.outputs[out].node, id);
}

#[test]
fn color_camera_ports() {
    let (graph, id) = build(MyNodeTemplate::CreateColorCamera);
    assert_eq!(input_names(&graph, id), vec!["inputConfig", "inputControl"]);
    assert_eq!(
        output_names(&graph, id),
        vec!["raw", "isp", "video", "still", "preview"]
    );
    let raw = graph.nodes[id].get_output("raw").unwrap();
    assert_eq!(
        graph.outputs[raw].typ,
        MyDataType::Queue(DepthaiNode::ColorCamera)
    );
}

#[test]
fn detection_network_ports() {
    let (graph, id) = build(MyNodeTemplate::CreateYoloDetectionNetwork);
    assert_eq!(input_names(&graph, id), vec!["in"]);
    assert_eq!(output_names(&graph, id), vec!["out", "passthrough", "outNetwork"]);
}

#[test]
fn spatial_detection_network_ports() {
    let (graph, id) = build(MyNodeTemplate::CreateSpatialDetectionNetwork);
    assert_eq!(input_names(&graph, id), vec!["in", "inputDepth"]);
    assert_eq!(
        output_names(&graph, id),
        vec![
            "out",
            "boundingBoxMapping",
            "passthroughDepth",
            "spatialLocationCalculatorOutput",
            "passthrough",
        ]
    );
}

#[test]
fn stereo_depth_ports() {
    let (graph, id) = build(MyNodeTemplate::CreateStereoDepth);
    assert_eq!(input_names(&graph, id), vec!["inputConfig", "left", "right"]);
    assert_eq!(
        output_names(&graph, id),
        vec![
            "depth",
            "disparity",
            "rectifiedLeft",
            "rectifiedRight",
            "syncedLeft",
            "syncedRight",
            "confidenceMap",
        ]
    );
}

#[test]
fn imu_ports() {
    let (graph, id) = build(MyNodeTemplate::CreateIMU);
    assert_eq!(input_names(&graph, id).len(), 0);
    assert_eq!(output_names(&graph, id), vec!["out"]);
}

#[test]
fn spi_and_xlink_ports() {
    let (graph, id) = build(MyNodeTemplate::CreateSPIIn);
    assert_eq!(input_names(&graph, id), vec!["SPI (from MCU)"]);
    assert_eq!(output_names(&graph, id), vec!["out"]);
    let (graph, id) = build(MyNodeTemplate::CreateXLinkOut);
    assert_eq!(input_names(&graph, id), vec!["in"]);
    assert_eq!(output_names(&graph, id), vec!["XLink (to host)"]);
}

#[test]
fn script_ports_follow_listed_names() {
    let template = MyNodeTemplate::CreateScript(
        vec!["cfg".to_owned(), "frames".to_owned()],
        vec!["processed".to_owned()],
    );
    let (graph, id) = build(template);
    assert_eq!(input_names(&graph, id), vec!["cfg", "frames"]);
    assert_eq!(output_names(&graph, id), vec!["processed"]);
    let cfg = graph.nodes[id].get_input("cfg").unwrap();
    assert_eq!(graph.inputs[cfg].typ, MyDataType::Queue(DepthaiNode::Script));
    assert_eq!(graph.inputs[cfg].value, MyValueType::Queue(DepthaiNode::Script));
}

#[test]
fn ports_are_appended_per_node() {
    let mut graph = Graph::new();
    let first = graph.add_node(
        "first".to_owned(),
        MyNodeData { template: MyNodeTemplate::AddScalar },
    );
    MyNodeTemplate::AddScalar.build_node(&mut graph, first);
    let second = graph.add_node(
        "second".to_owned(),
        MyNodeData { template: MyNodeTemplate::MakeScalar },
    );
    MyNodeTemplate::MakeScalar.build_node(&mut graph, second);
    assert_eq!(graph.inputs.len(), 3);
    assert_eq!(graph.outputs.len(), 2);
    assert_eq!(graph.connections.len(), 3);
    assert!(graph.connections.iter().all(|c| c.is_none()));
    let value = graph.nodes[second].get_input("value").unwrap();
    assert_eq!(graph.inputs[value].node, second);
    assert_eq!(value, 2);
}
