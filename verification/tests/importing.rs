use std::collections::HashMap;

use pipeline_graph::editor::EditorState;
use pipeline_graph::editor::ImportError;
use pipeline_graph::editor::MyGraphState;
use pipeline_graph::editor::MyResponse;
use pipeline_graph::editor::NodeGraphExample;
use pipeline_graph::eval::evaluate_node;
use pipeline_graph::eval::OutputsCache;
use pipeline_graph::schema::Connection;
use pipeline_graph::schema::Node;
use pipeline_graph::schema::Schema;
use pipeline_graph::template::MyNodeTemplate;
use pipeline_graph::DepthaiNode;
use pipeline_graph::MyValueType;

fn plain_node(id: i32, name: &str) -> Node {
    Node::new(id, vec![], name.to_owned(), vec![])
}

fn conn(source: i32, out: &str, dest: i32, input: &str) -> Connection {
    Connection {
        source_node: source,
        source_node_output: out.to_owned(),
        dest_node: dest,
        dest_node_input: input.to_owned(),
        dest_node_input_group: String::new(),
    }
}

#[test]
fn import_builds_nodes_and_wires_connections() {
    let mut schema = Schema {
        nodes: vec![
            (1, plain_node(1, "ColorCamera")),
            (2, plain_node(2, "XLinkOut")),
        ],
        connections: vec![conn(1, "video", 2, "in")],
    };
    let mut state = EditorState::new();
    assert_eq!(state.create_nodes_from_dump(&mut schema), Ok(()));

    assert_eq!(state.graph.nodes.len(), 2);
    assert_eq!(state.graph.nodes[0].label, "ColorCamera");
    assert_eq!(state.graph.nodes[1].label, "XLinkOut");
    assert!(matches!(
        state.graph.nodes[0].user_data.template,
        MyNodeTemplate::CreateColorCamera
    ));
    assert!(matches!(
        state.graph.nodes[1].user_data.template,
        MyNodeTemplate::CreateXLinkOut
    ));

    let video = state.graph.nodes[0].get_output("video").unwrap();
    let link_in = state.graph.nodes[1].get_input("in").unwrap();
    assert_eq!(state.graph.connection(link_in), Some(video));

    // The camera is a layout start node; the link node has no rank entry.
    assert_eq!(state.node_positions, vec![(150, 0), (0, 0)]);
    assert_eq!(state.node_order, vec![0, 1]);

    // The imported pipeline evaluates: the camera's queue reaches the link.
    let mut cache: OutputsCache = HashMap::new();
    assert_eq!(
        evaluate_node(&state.graph, 0, &mut cache),
        Ok(MyValueType::Queue(DepthaiNode::ColorCamera))
    );
}

#[test]
fn import_appends_to_an_existing_document() {
    let mut first = Schema {
        nodes: vec![(1, plain_node(1, "IMU"))],
        connections: vec![],
    };
    let mut second = Schema {
        nodes: vec![(5, plain_node(5, "MonoCamera"))],
        connections: vec![],
    };
    let mut state = EditorState::new();
    assert_eq!(state.create_nodes_from_dump(&mut first), Ok(()));
    assert_eq!(state.create_nodes_from_dump(&mut second), Ok(()));
    assert_eq!(state.graph.nodes.len(), 2);
    assert_eq!(state.graph.nodes[0].label, "IMU");
    assert_eq!(state.graph.nodes[1].label, "MonoCamera");
    assert_eq!(state.node_order, vec![0, 1]);
}

#[test]
fn later_listing_wins_for_repeated_ids() {
    let mut schema = Schema {
        nodes: vec![
            (1, plain_node(1, "ColorCamera")),
            (1, plain_node(1, "MonoCamera")),
            (2, plain_node(2, "XLinkOut")),
        ],
        connections: vec![conn(1, "out", 2, "in")],
    };
    let mut state = EditorState::new();
    assert_eq!(state.create_nodes_from_dump(&mut schema), Ok(()));
    // "out" exists on the mono camera only, so the import resolved id 1 to
    // the later node.
    let mono_out = state.graph.nodes[1].get_output("out").unwrap();
    let link_in = state.graph.nodes[2].get_input("in").unwrap();
    assert_eq!(state.graph.connection(link_in), Some(mono_out));
}

#[test]
fn unknown_node_kind_is_rejected() {
    let mut schema = Schema {
        nodes: vec![(1, plain_node(1, "Mystery"))],
        connections: vec![],
    };
    let mut state = EditorState::new();
    assert_eq!(
        state.create_nodes_from_dump(&mut schema),
        Err(ImportError::UnknownNodeKind)
    );
}

#[test]
fn unknown_connection_endpoint_is_rejected() {
    let mut schema = Schema {
        nodes: vec![(1, plain_node(1, "ColorCamera"))],
        connections: vec![conn(1, "video", 42, "in")],
    };
    let mut state = EditorState::new();
    assert_eq!(
        state.create_nodes_from_dump(&mut schema),
        Err(ImportError::UnknownNodeId)
    );
}

#[test]
fn unknown_port_name_is_rejected() {
    let mut schema = Schema {
        nodes: vec![
            (1, plain_node(1, "ColorCamera")),
            (2, plain_node(2, "XLinkOut")),
        ],
        connections: vec![conn(1, "nope", 2, "in")],
    };
    let mut state = EditorState::new();
    assert_eq!(
        state.create_nodes_from_dump(&mut schema),
        Err(ImportError::NoSuchParameter)
    );
}

#[test]
fn script_nodes_import_with_their_io_names() {
    let io_entry = |id: i32, name: &str, kind: i32| {
        (
            ("io".to_owned(), String::new()),
            pipeline_graph::schema::IOInfo {
                blocking: false,
                group: "io".to_owned(),
                id,
                name: name.to_owned(),
                queue_size: 1,
                kind,
                wait_for_message: true,
            },
        )
    };
    let mut schema = Schema {
        nodes: vec![
            (1, plain_node(1, "XLinkIn")),
            (
                2,
                Node::new(
                    2,
                    vec![io_entry(10, "cfg", 1), io_entry(11, "result", 0)],
                    "Script".to_owned(),
                    vec![],
                ),
            ),
        ],
        connections: vec![conn(1, "out", 2, "cfg")],
    };
    let mut state = EditorState::new();
    assert_eq!(state.create_nodes_from_dump(&mut schema), Ok(()));
    let cfg = state.graph.nodes[1].get_input("cfg").unwrap();
    let xlink_out = state.graph.nodes[0].get_output("out").unwrap();
    assert_eq!(state.graph.connection(cfg), Some(xlink_out));
    assert!(state.graph.nodes[1].get_output("result").is_ok());
}

#[test]
fn graph_state_tracks_the_active_node() {
    let mut state = MyGraphState::default();
    assert_eq!(state.active_node, None);
    state.apply(MyResponse::SetActiveNode(3));
    assert_eq!(state.active_node, Some(3));
    state.apply(MyResponse::ClearActiveNode);
    assert_eq!(state.active_node, None);
}

#[test]
fn fresh_document_is_empty() {
    let example = NodeGraphExample::new();
    assert_eq!(example.state.graph.nodes.len(), 0);
    assert_eq!(example.state.node_positions.len(), 0);
    assert_eq!(example.state.node_order.len(), 0);
    assert_eq!(example.user_state.active_node, None);
}

#[test]
fn import_error_messages() {
    assert_eq!(ImportError::UnknownNodeKind.message(), "unknown node kind");
    assert_eq!(
        ImportError::UnknownNodeId.message(),
        "a connection names an unlisted node id"
    );
    assert_eq!(
        ImportError::NoSuchParameter.message(),
        "a connection names a missing port"
    );
}

#[test]
fn import_keeps_nodes_added_before_a_failure() {
    let mut schema = Schema {
        nodes: vec![
            (1, plain_node(1, "ColorCamera")),
            (2, plain_node(2, "Mystery")),
        ],
        connections: vec![],
    };
    let mut state = EditorState::new();
    assert_eq!(
        state.create_nodes_from_dump(&mut schema),
        Err(ImportError::UnknownNodeKind)
    );
    // The camera was imported before the unknown kind stopped the pass.
    assert_eq!(state.graph.nodes.len(), 1);
    assert_eq!(state.graph.nodes[0].label, "ColorCamera");
    assert_eq!(state.node_positions.len(), 1);
    assert_eq!(state.node_order, vec![0]);
}

#[test]
fn later_connection_to_the_same_input_wins() {
    let mut schema = Schema {
        nodes: vec![
            (1, plain_node(1, "ColorCamera")),
            (2, plain_node(2, "MonoCamera")),
            (3, plain_node(3, "XLinkOut")),
        ],
        connections: vec![conn(1, "video", 3, "in"), conn(2, "out", 3, "in")],
    };
    let mut state = EditorState::new();
    assert_eq!(state.create_nodes_from_dump(&mut schema), Ok(()));
    let mono_out = state.graph.nodes[1].get_output("out").unwrap();
    let link_in = state.graph.nodes[2].get_input("in").unwrap();
    assert_eq!(state.graph.connection(link_in), Some(mono_out));
}
