use std::collections::HashMap;

use pipeline_graph::schema::Connection;
use pipeline_graph::schema::IOInfo;
use pipeline_graph::schema::IOKind;
use pipeline_graph::schema::Node;
use pipeline_graph::schema::Schema;
use pipeline_graph::template::MyNodeTemplate;

fn io(group: &str, id: i32, name: &str, kind: i32) -> ((String, String), IOInfo) {
    (
        (group.to_owned(), String::new()),
        IOInfo {
            blocking: false,
            group: group.to_owned(),
            id,
            name: name.to_owned(),
            queue_size: 4,
            kind,
            wait_for_message: false,
        },
    )
}

fn plain_node(id: i32, name: &str) -> Node {
    Node::new(id, vec![], name.to_owned(), vec![])
}

fn conn(source: i32, out: &str, dest: i32, input: &str) -> Connection {
    Connection {
        source_node: source,
        source_node_output: out.to_owned(),
        dest_node: dest,
        dest_node_input: input.to_owned(),
        dest_node_input_group: String::new(),
    }
}

#[test]
fn io_kind_codes() {
    assert_eq!(IOKind::Output.code(), 0);
    assert_eq!(IOKind::Input.code(), 1);
}

#[test]
fn templates_from_names() {
    assert!(matches!(
        plain_node(1, "ColorCamera").template(),
        MyNodeTemplate::CreateColorCamera
    ));
    assert!(matches!(
        plain_node(1, "SpatialLocationCalculator").template(),
        MyNodeTemplate::CreateSpatialLocationCalculator
    ));
    assert!(matches!(
        plain_node(1, "IMU").template(),
        MyNodeTemplate::CreateIMU
    ));
    assert!(plain_node(1, "Bogus").try_template().is_none());
}

#[test]
fn script_template_groups_io_entries() {
    let node = Node::new(
        7,
        vec![
            io("io", 1, "in1", 1),
            io("io", 2, "out1", 0),
            io("other", 3, "skipped", 1),
            io("io", 4, "in2", 3),
        ],
        "Script".to_owned(),
        vec![],
    );
    match node.template() {
        MyNodeTemplate::CreateScript(ins, outs) => {
            assert_eq!(ins, vec!["in1".to_owned(), "in2".to_owned()]);
            assert_eq!(outs, vec!["out1".to_owned()]);
        }
        _ => panic!("expected a script template"),
    }
}

#[test]
fn positions_move_with_set_pos() {
    let mut node = plain_node(1, "IMU");
    assert_eq!(node.get_pos(), (0, 0));
    node.set_pos(5, -9);
    assert_eq!(node.get_pos(), (5, -9));
    assert_eq!(node.id, 1);
}

#[test]
fn connection_queries() {
    let schema = Schema {
        nodes: vec![
            (1, plain_node(1, "ColorCamera")),
            (2, plain_node(2, "XLinkOut")),
            (3, plain_node(3, "IMU")),
        ],
        connections: vec![
            conn(1, "video", 2, "in"),
            conn(3, "out", 2, "in"),
            conn(1, "preview", 3, "x"),
        ],
    };
    let camera = plain_node(1, "ColorCamera");
    assert_eq!(schema.all_connections(&camera), vec![0, 2]);
    assert_eq!(schema.get_nodes_connected_to_outputs(&camera), vec![1, 2]);
    let imu = plain_node(3, "IMU");
    assert_eq!(schema.all_connections(&imu), vec![1, 2]);
    assert_eq!(schema.get_nodes_connected_to_outputs(&imu), vec![1]);
    assert_eq!(schema.find_node_index(2), Some(1));
    assert_eq!(schema.find_node_index(9), None);
}

#[test]
fn dangling_destinations_are_skipped() {
    let schema = Schema {
        nodes: vec![(1, plain_node(1, "ColorCamera"))],
        connections: vec![conn(1, "video", 42, "in")],
    };
    let camera = plain_node(1, "ColorCamera");
    assert_eq!(schema.get_nodes_connected_to_outputs(&camera), Vec::<usize>::new());
}

#[test]
fn ranks_propagate_through_output_io_ids() {
    let schema = Schema {
        nodes: vec![
            (1, Node::new(1, vec![io("io", 2, "video", 0)], "ColorCamera".to_owned(), vec![])),
            (2, plain_node(2, "XLinkOut")),
        ],
        connections: vec![],
    };
    let ranks = schema.compute_node_rank(&vec![1]);
    assert_eq!(ranks.get(&1), Some(&0));
    assert_eq!(ranks.get(&2), Some(&1));
}

#[test]
fn layout_places_ranked_nodes_in_columns() {
    let mut schema = Schema {
        nodes: vec![
            (1, Node::new(1, vec![io("io", 2, "video", 0)], "ColorCamera".to_owned(), vec![])),
            (2, plain_node(2, "XLinkOut")),
        ],
        connections: vec![],
    };
    schema.auto_layout_nodes();
    assert_eq!(schema.nodes[0].1.get_pos(), (150, 0));
    assert_eq!(schema.nodes[1].1.get_pos(), (300, 0));
}

#[test]
fn layout_stacks_nodes_of_one_rank() {
    let mut schema = Schema {
        nodes: vec![
            (1, plain_node(1, "ColorCamera")),
            (2, plain_node(2, "MonoCamera")),
        ],
        connections: vec![],
    };
    schema.auto_layout_nodes();
    assert_eq!(schema.nodes[0].1.get_pos(), (150, 0));
    assert_eq!(schema.nodes[1].1.get_pos(), (150, 190));
}

#[test]
fn layout_leaves_unranked_nodes_alone() {
    let mut schema = Schema {
        nodes: vec![
            (1, plain_node(1, "ColorCamera")),
            (2, plain_node(2, "Script")),
        ],
        connections: vec![],
    };
    schema.auto_layout_nodes();
    assert_eq!(schema.nodes[0].1.get_pos(), (150, 0));
    assert_eq!(schema.nodes[1].1.get_pos(), (0, 0));
}

#[test]
fn rank_updates_only_accumulate() {
    let schema = Schema {
        nodes: vec![
            (1, Node::new(1, vec![io("io", 2, "video", 0)], "ColorCamera".to_owned(), vec![])),
            (2, plain_node(2, "XLinkOut")),
        ],
        connections: vec![],
    };
    let mut ranks: HashMap<i32, i32> = HashMap::new();
    ranks.insert(2, 5);
    schema.update_node_rank(1, &mut ranks, 8);
    // Node 2 already had a higher rank, so it keeps it.
    assert_eq!(ranks.get(&2), Some(&5));
    schema.update_node_rank(99, &mut ranks, 8);
    assert_eq!(ranks.len(), 1);
}
