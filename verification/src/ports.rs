use vstd::prelude::*;

use crate::graph::Graph;
use crate::graph::InputParam;
use crate::graph::InputParamKind;
use crate::graph::OutputParam;
use crate::template::MyNodeTemplate;
use crate::value::DepthaiNode;
use crate::value::MyDataType;
use crate::value::MyValueType;
use crate::value::Vec2;

verus! {

/// A scalar input port: starts as the constant zero.
pub open spec fn spec_scalar_in(name: Seq<char>) -> (Seq<char>, MyDataType, MyValueType) {
    (name, MyDataType::Scalar, MyValueType::Scalar { value: 0i64 })
}

/// A vector input port: starts as the zero vector.
pub open spec fn spec_vector_in(name: Seq<char>) -> (Seq<char>, MyDataType, MyValueType) {
    (name, MyDataType::Vec2, MyValueType::Vec2 { value: (Vec2 { x: 0i64, y: 0i64 }) })
}

/// A queue input port of block kind `n`: starts as a queue of that kind.
pub open spec fn spec_queue_in(name: Seq<char>, n: DepthaiNode) -> (
    Seq<char>,
    MyDataType,
    MyValueType,
) {
    (name, MyDataType::Queue(n), MyValueType::Queue(n))
}

/// The input ports every template builds, in order: name, type and starting
/// constant.
pub open spec fn spec_input_ports(t: MyNodeTemplate) -> Seq<(Seq<char>, MyDataType, MyValueType)> {
    match t {
        MyNodeTemplate::MakeScalar => seq![spec_scalar_in("value"@)],
        MyNodeTemplate::AddScalar => seq![spec_scalar_in("A"@), spec_scalar_in("B"@)],
        MyNodeTemplate::SubtractScalar => seq![spec_scalar_in("A"@), spec_scalar_in("B"@)],
        MyNodeTemplate::MakeVector => seq![spec_scalar_in("x"@), spec_scalar_in("y"@)],
        MyNodeTemplate::AddVector => seq![spec_vector_in("v1"@), spec_vector_in("v2"@)],
        MyNodeTemplate::SubtractVector => seq![spec_vector_in("v1"@), spec_vector_in("v2"@)],
        MyNodeTemplate::VectorTimesScalar => seq![
            spec_scalar_in("scalar"@),
            spec_vector_in("vector"@),
        ],
        MyNodeTemplate::CreateColorCamera => seq![
            spec_queue_in("inputConfig"@, DepthaiNode::ColorCamera),
            spec_queue_in("inputControl"@, DepthaiNode::ColorCamera),
        ],
        MyNodeTemplate::CreateMonoCamera => seq![
            spec_queue_in("inputConfig"@, DepthaiNode::MonoCamera),
            spec_queue_in("inputControl"@, DepthaiNode::MonoCamera),
        ],
        MyNodeTemplate::CreateImageManip => seq![
            spec_queue_in("inputImage"@, DepthaiNode::ImageManip),
            spec_queue_in("inputConfig"@, DepthaiNode::ImageManip),
        ],
        MyNodeTemplate::CreateVideoEncoder => seq![
            spec_queue_in("in"@, DepthaiNode::VideoEncoder),
        ],
        MyNodeTemplate::CreateNeuralNetwork => seq![
            spec_queue_in("in"@, DepthaiNode::NeuralNetwork),
        ],
        MyNodeTemplate::CreateDetectionNetwork => seq![
            spec_queue_in("in"@, DepthaiNode::DetectionNetwork),
        ],
        MyNodeTemplate::CreateMobileNetDetectionNetwork => seq![
            spec_queue_in("in"@, DepthaiNode::MobileNetDetectionNetwork),
        ],
        MyNodeTemplate::CreateYoloDetectionNetwork => seq![
            spec_queue_in("in"@, DepthaiNode::YoloDetectionNetwork),
        ],
        MyNodeTemplate::CreateMobileNetSpatialDetectionNetwork => spec_spatial_inputs(
            DepthaiNode::MobileNetSpatialDetectionNetwork,
        ),
        MyNodeTemplate::CreateYoloSpatialDetectionNetwork => spec_spatial_inputs(
            DepthaiNode::YoloSpatialDetectionNetwork,
        ),
        MyNodeTemplate::CreateSpatialDetectionNetwork => spec_spatial_inputs(
            DepthaiNode::SpatialDetectionNetwork,
        ),
        MyNodeTemplate::CreateSPIIn => seq![spec_queue_in("SPI (from MCU)"@, DepthaiNode::SPIIn)],
        MyNodeTemplate::CreateSPIOut => seq![spec_queue_in("in"@, DepthaiNode::SPIOut)],
        MyNodeTemplate::CreateXLinkOut => seq![spec_queue_in("in"@, DepthaiNode::XLinkOut)],
        MyNodeTemplate::CreateXLinkIn => seq![
            spec_queue_in("XLink (from host)"@, DepthaiNode::XLinkIn),
        ],
        MyNodeTemplate::CreateScript(ins, _) => ins.deep_view().map_values(
            |nm: Seq<char>| spec_queue_in(nm, DepthaiNode::Script),
        ),
        MyNodeTemplate::CreateStereoDepth => seq![
            spec_queue_in("inputConfig"@, DepthaiNode::StereoDepth),
            spec_queue_in("left"@, DepthaiNode::StereoDepth),
            spec_queue_in("right"@, DepthaiNode::StereoDepth),
        ],
        MyNodeTemplate::CreateSpatialLocationCalculator => seq![
            spec_queue_in("inputConfig"@, DepthaiNode::SpatialLocationCalculator),
            spec_queue_in("inputDepth"@, DepthaiNode::SpatialLocationCalculator),
        ],
        MyNodeTemplate::CreateEdgeDetector => seq![
            spec_queue_in("inputConfig"@, DepthaiNode::EdgeDetector),
            spec_queue_in("inputImage"@, DepthaiNode::EdgeDetector),
        ],
        MyNodeTemplate::CreateFeaureTracker => seq![
            spec_queue_in("inputConfig"@, DepthaiNode::FeaureTracker),
            spec_queue_in("inputImage"@, DepthaiNode::FeaureTracker),
        ],
        MyNodeTemplate::CreateObjectTracker => seq![
            spec_queue_in("inputDetectionFrame"@, DepthaiNode::ObjectTracker),
            spec_queue_in("inputDetections"@, DepthaiNode::ObjectTracker),
            spec_queue_in("inputTrackerFrame"@, DepthaiNode::ObjectTracker),
        ],
        MyNodeTemplate::CreateIMU => Seq::empty(),
    }
}

/// The inputs of the spatial detection network templates.
pub open spec fn spec_spatial_inputs(n: DepthaiNode) -> Seq<(Seq<char>, MyDataType, MyValueType)> {
    seq![spec_queue_in("in"@, n), spec_queue_in("inputDepth"@, n)]
}

/// The outputs of the plain detection network templates.
pub open spec fn spec_detection_outputs(n: DepthaiNode) -> Seq<(Seq<char>, MyDataType)> {
    seq![
        ("out"@, MyDataType::Queue(n)),
        ("passthrough"@, MyDataType::Queue(n)),
        ("outNetwork"@, MyDataType::Queue(n)),
    ]
}

/// The outputs of the spatial detection network templates.
pub open spec fn spec_spatial_outputs(n: DepthaiNode) -> Seq<(Seq<char>, MyDataType)> {
    seq![
        ("out"@, MyDataType::Queue(n)),
        ("boundingBoxMapping"@, MyDataType::Queue(n)),
        ("passthroughDepth"@, MyDataType::Queue(n)),
        ("spatialLocationCalculatorOutput"@, MyDataType::Queue(n)),
        ("passthrough"@, MyDataType::Queue(n)),
    ]
}

/// The output ports every template builds, in order: name and type.
pub open spec fn spec_output_ports(t: MyNodeTemplate) -> Seq<(Seq<char>, MyDataType)> {
    match t {
        MyNodeTemplate::MakeScalar => seq![("out"@, MyDataType::Scalar)],
        MyNodeTemplate::AddScalar => seq![("out"@, MyDataType::Scalar)],
        MyNodeTemplate::SubtractScalar => seq![("out"@, MyDataType::Scalar)],
        MyNodeTemplate::MakeVector => seq![("out"@, MyDataType::Vec2)],
        MyNodeTemplate::AddVector => seq![("out"@, MyDataType::Vec2)],
        MyNodeTemplate::SubtractVector => seq![("out"@, MyDataType::Vec2)],
        MyNodeTemplate::VectorTimesScalar => seq![("out"@, MyDataType::Vec2)],
        MyNodeTemplate::CreateColorCamera => seq![
            ("raw"@, MyDataType::Queue(DepthaiNode::ColorCamera)),
            ("isp"@, MyDataType::Queue(DepthaiNode::ColorCamera)),
            ("video"@, MyDataType::Queue(DepthaiNode::ColorCamera)),
            ("still"@, MyDataType::Queue(DepthaiNode::ColorCamera)),
            ("preview"@, MyDataType::Queue(DepthaiNode::ColorCamera)),
        ],
        MyNodeTemplate::CreateMonoCamera => seq![
            ("out"@, MyDataType::Queue(DepthaiNode::MonoCamera)),
        ],
        MyNodeTemplate::CreateImageManip => seq![
            ("out"@, MyDataType::Queue(DepthaiNode::ImageManip)),
        ],
        MyNodeTemplate::CreateVideoEncoder => seq![
            ("bitstream"@, MyDataType::Queue(DepthaiNode::VideoEncoder)),
        ],
        MyNodeTemplate::CreateNeuralNetwork => seq![
            ("out"@, MyDataType::Queue(DepthaiNode::NeuralNetwork)),
            ("passthrough"@, MyDataType::Queue(DepthaiNode::NeuralNetwork)),
        ],
        MyNodeTemplate::CreateDetectionNetwork => spec_detection_outputs(
            DepthaiNode::DetectionNetwork,
        ),
        MyNodeTemplate::CreateMobileNetDetectionNetwork => spec_detection_outputs(
            DepthaiNode::MobileNetDetectionNetwork,
        ),
        MyNodeTemplate::CreateYoloDetectionNetwork => spec_detection_outputs(
            DepthaiNode::YoloDetectionNetwork,
        ),
        MyNodeTemplate::CreateMobileNetSpatialDetectionNetwork => spec_spatial_outputs(
            DepthaiNode::MobileNetSpatialDetectionNetwork,
        ),
        MyNodeTemplate::CreateYoloSpatialDetectionNetwork => spec_spatial_outputs(
            DepthaiNode::YoloSpatialDetectionNetwork,
        ),
        MyNodeTemplate::CreateSpatialDetectionNetwork => spec_spatial_outputs(
            DepthaiNode::SpatialDetectionNetwork,
        ),
        MyNodeTemplate::CreateSPIIn => seq![("out"@, MyDataType::Queue(DepthaiNode::SPIIn))],
        MyNodeTemplate::CreateSPIOut => seq![
            ("SPI (to MCU)"@, MyDataType::Queue(DepthaiNode::SPIOut)),
        ],
        MyNodeTemplate::CreateXLinkOut => seq![
            ("XLink (to host)"@, MyDataType::Queue(DepthaiNode::XLinkOut)),
        ],
        MyNodeTemplate::CreateXLinkIn => seq![("out"@, MyDataType::Queue(DepthaiNode::XLinkIn))],
        MyNodeTemplate::CreateScript(_, outs) => outs.deep_view().map_values(
            |nm: Seq<char>| (nm, MyDataType::Queue(DepthaiNode::Script)),
        ),
        MyNodeTemplate::CreateStereoDepth => seq![
            ("depth"@, MyDataType::Queue(DepthaiNode::StereoDepth)),
            ("disparity"@, MyDataType::Queue(DepthaiNode::StereoDepth)),
            ("rectifiedLeft"@, MyDataType::Queue(DepthaiNode::StereoDepth)),
            ("rectifiedRight"@, MyDataType::Queue(DepthaiNode::StereoDepth)),
            ("syncedLeft"@, MyDataType::Queue(DepthaiNode::StereoDepth)),
            ("syncedRight"@, MyDataType::Queue(DepthaiNode::StereoDepth)),
            ("confidenceMap"@, MyDataType::Queue(DepthaiNode::StereoDepth)),
        ],
        MyNodeTemplate::CreateSpatialLocationCalculator => seq![
            ("out"@, MyDataType::Queue(DepthaiNode::SpatialLocationCalculator)),
            ("passthroughDepth"@, MyDataType::Queue(DepthaiNode::SpatialLocationCalculator)),
        ],
        MyNodeTemplate::CreateEdgeDetector => seq![
            ("outputImage"@, MyDataType::Queue(DepthaiNode::EdgeDetector)),
        ],
        MyNodeTemplate::CreateFeaureTracker => seq![
            ("outputFeatures"@, MyDataType::Queue(DepthaiNode::FeaureTracker)),
            ("passthroughInputImage"@, MyDataType::Queue(DepthaiNode::FeaureTracker)),
        ],
        MyNodeTemplate::CreateObjectTracker => seq![
            ("out"@, MyDataType::Queue(DepthaiNode::ObjectTracker)),
            ("passthroughDetectionFrame"@, MyDataType::Queue(DepthaiNode::ObjectTracker)),
            ("passthroughDetections"@, MyDataType::Queue(DepthaiNode::ObjectTracker)),
            ("passthroughTrackerFrame"@, MyDataType::Queue(DepthaiNode::ObjectTracker)),
        ],
        MyNodeTemplate::CreateIMU => seq![("out"@, MyDataType::Queue(DepthaiNode::IMU))],
    }
}

/// The stored form of an input port description on node `node_id`. Every
/// template builds inputs that accept a connection or a constant and show
/// their widget inline.
pub open spec fn spec_in_param(node_id: usize, p: (Seq<char>, MyDataType, MyValueType)) -> InputParam {
    InputParam {
        node: node_id,
        typ: p.1,
        value: p.2,
        kind: InputParamKind::ConnectionOrConstant,
        shown_inline: true,
    }
}

/// The stored form of an output port description on node `node_id`.
pub open spec fn spec_out_param(node_id: usize, p: (Seq<char>, MyDataType)) -> OutputParam {
    OutputParam { node: node_id, typ: p.1 }
}

/// `g1` is `g0` with exactly the described ports appended to node `node_id`,
/// which had none: the port tables grow by the described entries, the node's
/// port lists name them in order, and everything else is unchanged.
pub open spec fn built_ports(
    g0: Graph,
    g1: Graph,
    node_id: usize,
    ins: Seq<(Seq<char>, MyDataType, MyValueType)>,
    outs: Seq<(Seq<char>, MyDataType)>,
) -> bool {
    let node = g1.nodes@[node_id as int];
    &&& g1.nodes@.len() == g0.nodes@.len()
    &&& forall|n: int|
        0 <= n < g0.nodes@.len() && n != node_id ==> g1.nodes@[n] == g0.nodes@[n]
    &&& node.label == g0.nodes@[node_id as int].label
    &&& node.user_data == g0.nodes@[node_id as int].user_data
    &&& node.inputs@.len() == ins.len()
    &&& forall|j: int|
        0 <= j < ins.len() ==> (#[trigger] node.inputs@[j]).0@ == ins[j].0 && node.inputs@[j].1
            == g0.inputs@.len() + j
    &&& node.outputs@.len() == outs.len()
    &&& forall|j: int|
        0 <= j < outs.len() ==> (#[trigger] node.outputs@[j]).0@ == outs[j].0 && node.outputs@[j].1
            == g0.outputs@.len() + j
    &&& g1.inputs@.len() == g0.inputs@.len() + ins.len()
    &&& forall|i: int| 0 <= i < g0.inputs@.len() ==> g1.inputs@[i] == g0.inputs@[i]
    &&& forall|j: int|
        0 <= j < ins.len() ==> g1.inputs@[g0.inputs@.len() + j] == spec_in_param(
            node_id,
            #[trigger] ins[j],
        )
    &&& g1.outputs@.len() == g0.outputs@.len() + outs.len()
    &&& forall|i: int| 0 <= i < g0.outputs@.len() ==> g1.outputs@[i] == g0.outputs@[i]
    &&& forall|j: int|
        0 <= j < outs.len() ==> g1.outputs@[g0.outputs@.len() + j] == spec_out_param(
            node_id,
            #[trigger] outs[j],
        )
    &&& g1.connections@.len() == g0.connections@.len() + ins.len()
    &&& forall|i: int| 0 <= i < g0.connections@.len() ==> g1.connections@[i] == g0.connections@[i]
    &&& forall|j: int|
        g0.connections@.len() <= j < g1.connections@.len() ==> (#[trigger] g1.connections@[j])
            is None
}

/// Appends a scalar input port holding zero.
fn input_scalar(graph: &mut Graph, node_id: usize, name: &str)
    requires
        old(graph).wf(),
        node_id < old(graph).nodes@.len(),
    ensures
        final(graph).wf(),
        added_input(*old(graph), *final(graph), node_id, spec_scalar_in(name@)),
{
    graph.add_input_param(
        node_id,
        name.to_owned(),
        MyDataType::Scalar,
        MyValueType::Scalar { value: 0 },
        InputParamKind::ConnectionOrConstant,
        true,
    );
}

/// Appends a vector input port holding the zero vector.
fn input_vector(graph: &mut Graph, node_id: usize, name: &str)
    requires
        old(graph).wf(),
        node_id < old(graph).nodes@.len(),
    ensures
        final(graph).wf(),
        added_input(*old(graph), *final(graph), node_id, spec_vector_in(name@)),
{
    graph.add_input_param(
        node_id,
        name.to_owned(),
        MyDataType::Vec2,
        MyValueType::Vec2 { value: Vec2 { x: 0, y: 0 } },
        InputParamKind::ConnectionOrConstant,
        true,
    );
}

/// Appends a queue input port of block kind `depthai_node`.
fn build_depthai_input(graph: &mut Graph, node_id: usize, name: &str, depthai_node: DepthaiNode)
    requires
        old(graph).wf(),
        node_id < old(graph).nodes@.len(),
    ensures
        final(graph).wf(),
        added_input(*old(graph), *final(graph), node_id, spec_queue_in(name@, depthai_node)),
{
    graph.add_input_param(
        node_id,
        name.to_owned(),
        MyDataType::Queue(depthai_node),
        MyValueType::Queue(depthai_node),
        InputParamKind::ConnectionOrConstant,
        true,
    );
}

/// Appends a scalar output port.
fn output_scalar(graph: &mut Graph, node_id: usize, name: &str)
    requires
        old(graph).wf(),
        node_id < old(graph).nodes@.len(),
    ensures
        final(graph).wf(),
        added_output(*old(graph), *final(graph), node_id, (name@, MyDataType::Scalar)),
{
    graph.add_output_param(node_id, name.to_owned(), MyDataType::Scalar);
}

/// Appends a vector output port.
fn output_vector(graph: &mut Graph, node_id: usize, name: &str)
    requires
        old(graph).wf(),
        node_id < old(graph).nodes@.len(),
    ensures
        final(graph).wf(),
        added_output(*old(graph), *final(graph), node_id, (name@, MyDataType::Vec2)),
{
    graph.add_output_param(node_id, name.to_owned(), MyDataType::Vec2);
}

/// Appends a queue output port of block kind `depthai_node`.
fn build_depthai_output(graph: &mut Graph, node_id: usize, name: &str, depthai_node: DepthaiNode)
    requires
        old(graph).wf(),
        node_id < old(graph).nodes@.len(),
    ensures
        final(graph).wf(),
        added_output(
            *old(graph),
            *final(graph),
            node_id,
            (name@, MyDataType::Queue(depthai_node)),
        ),
{
    graph.add_output_param(node_id, name.to_owned(), MyDataType::Queue(depthai_node));
}

/// `g1` is `g0` with one more input port on node `node_id`, described by `p`.
pub open spec fn added_input(
    g0: Graph,
    g1: Graph,
    node_id: usize,
    p: (Seq<char>, MyDataType, MyValueType),
) -> bool {
    let node0 = g0.nodes@[node_id as int];
    let node1 = g1.nodes@[node_id as int];
    &&& g1.nodes@.len() == g0.nodes@.len()
    &&& forall|n: int|
        0 <= n < g0.nodes@.len() && n != node_id ==> g1.nodes@[n] == g0.nodes@[n]
    &&& node1.label == node0.label
    &&& node1.user_data == node0.user_data
    &&& node1.outputs == node0.outputs
    &&& node1.inputs@.len() == node0.inputs@.len() + 1
    &&& forall|j: int| 0 <= j < node0.inputs@.len() ==> node1.inputs@[j] == node0.inputs@[j]
    &&& node1.inputs@[node0.inputs@.len() as int].0@ == p.0
    &&& node1.inputs@[node0.inputs@.len() as int].1 == g0.inputs@.len()
    &&& g1.inputs@ == g0.inputs@.push(spec_in_param(node_id, p))
    &&& g1.connections@ == g0.connections@.push(None)
    &&& g1.outputs@ == g0.outputs@
}

/// `g1` is `g0` with one more output port on node `node_id`, described by `p`.
pub open spec fn added_output(
    g0: Graph,
    g1: Graph,
    node_id: usize,
    p: (Seq<char>, MyDataType),
) -> bool {
    let node0 = g0.nodes@[node_id as int];
    let node1 = g1.nodes@[node_id as int];
    &&& g1.nodes@.len() == g0.nodes@.len()
    &&& forall|n: int|
        0 <= n < g0.nodes@.len() && n != node_id ==> g1.nodes@[n] == g0.nodes@[n]
    &&& node1.label == node0.label
    &&& node1.user_data == node0.user_data
    &&& node1.inputs == node0.inputs
    &&& node1.outputs@.len() == node0.outputs@.len() + 1
    &&& forall|j: int| 0 <= j < node0.outputs@.len() ==> node1.outputs@[j] == node0.outputs@[j]
    &&& node1.outputs@[node0.outputs@.len() as int].0@ == p.0
    &&& node1.outputs@[node0.outputs@.len() as int].1 == g0.outputs@.len()
    &&& g1.outputs@ == g0.outputs@.push(spec_out_param(node_id, p))
    &&& g1.inputs@ == g0.inputs@
    &&& g1.connections@ == g0.connections@
}

/// A node that has no ports yet.
pub open spec fn no_ports(g: Graph, node_id: usize) -> bool {
    &&& g.nodes@[node_id as int].inputs@.len() == 0
    &&& g.nodes@[node_id as int].outputs@.len() == 0
}

/// Ports of the scalar add and subtract templates.
fn build_scalar_binop_ports(graph: &mut Graph, node_id: usize)
    requires
        old(graph).wf(),
        node_id < old(graph).nodes@.len(),
        no_ports(*old(graph), node_id),
    ensures
        final(graph).wf(),
        built_ports(
            *old(graph),
            *final(graph),
            node_id,
            seq![spec_scalar_in("A"@), spec_scalar_in("B"@)],
            seq![("out"@, MyDataType::Scalar)],
        ),
{
    input_scalar(graph, node_id, "A");
    input_scalar(graph, node_id, "B");
    output_scalar(graph, node_id, "out");
}

/// Ports of the vector add and subtract templates.
fn build_vector_binop_ports(graph: &mut Graph, node_id: usize)
    requires
        old(graph).wf(),
        node_id < old(graph).nodes@.len(),
        no_ports(*old(graph), node_id),
    ensures
        final(graph).wf(),
        built_ports(
            *old(graph),
            *final(graph),
            node_id,
            seq![spec_vector_in("v1"@), spec_vector_in("v2"@)],
            seq![("out"@, MyDataType::Vec2)],
        ),
{
    input_vector(graph, node_id, "v1");
    input_vector(graph, node_id, "v2");
    output_vector(graph, node_id, "out");
}

/// Ports of the vector-times-scalar template.
fn build_vector_times_scalar_ports(graph: &mut Graph, node_id: usize)
    requires
        old(graph).wf(),
        node_id < old(graph).nodes@.len(),
        no_ports(*old(graph), node_id),
    ensures
        final(graph).wf(),
        built_ports(
            *old(graph),
            *final(graph),
            node_id,
            seq![spec_scalar_in("scalar"@), spec_vector_in("vector"@)],
            seq![("out"@, MyDataType::Vec2)],
        ),
{
    input_scalar(graph, node_id, "scalar");
    input_vector(graph, node_id, "vector");
    output_vector(graph, node_id, "out");
}

/// Ports of the make-vector template.
fn build_make_vector_ports(graph: &mut Graph, node_id: usize)
    requires
        old(graph).wf(),
        node_id < old(graph).nodes@.len(),
        no_ports(*old(graph), node_id),
    ensures
        final(graph).wf(),
        built_ports(
            *old(graph),
            *final(graph),
            node_id,
            seq![spec_scalar_in("x"@), spec_scalar_in("y"@)],
            seq![("out"@, MyDataType::Vec2)],
        ),
{
    input_scalar(graph, node_id, "x");
    input_scalar(graph, node_id, "y");
    output_vector(graph, node_id, "out");
}

/// Ports of the make-scalar template.
fn build_make_scalar_ports(graph: &mut Graph, node_id: usize)
    requires
        old(graph).wf(),
        node_id < old(graph).nodes@.len(),
        no_ports(*old(graph), node_id),
    ensures
        final(graph).wf(),
        built_ports(
            *old(graph),
            *final(graph),
            node_id,
            seq![spec_scalar_in("value"@)],
            seq![("out"@, MyDataType::Scalar)],
        ),
{
    input_scalar(graph, node_id, "value");
    output_scalar(graph, node_id, "out");
}

/// Ports of the colour camera template.
fn build_color_camera_ports(graph: &mut Graph, node_id: usize)
    requires
        old(graph).wf(),
        node_id < old(graph).nodes@.len(),
        no_ports(*old(graph), node_id),
    ensures
        final(graph).wf(),
        built_ports(
            *old(graph),
            *final(graph),
            node_id,
            seq![spec_queue_in("inputConfig"@, DepthaiNode::ColorCamera), spec_queue_in("inputControl"@, DepthaiNode::ColorCamera)],
            seq![("raw"@, MyDataType::Queue(DepthaiNode::ColorCamera)), ("isp"@, MyDataType::Queue(DepthaiNode::ColorCamera)), ("video"@, MyDataType::Queue(DepthaiNode::ColorCamera)), ("still"@, MyDataType::Queue(DepthaiNode::ColorCamera)), ("preview"@, MyDataType::Queue(DepthaiNode::ColorCamera))],
        ),
{
    build_depthai_input(graph, node_id, "inputConfig", DepthaiNode::ColorCamera);
    build_depthai_input(graph, node_id, "inputControl", DepthaiNode::ColorCamera);
    build_depthai_output(graph, node_id, "raw", DepthaiNode::ColorCamera);
    build_depthai_output(graph, node_id, "isp", DepthaiNode::ColorCamera);
    build_depthai_output(graph, node_id, "video", DepthaiNode::ColorCamera);
    build_depthai_output(graph, node_id, "still", DepthaiNode::ColorCamera);
    build_depthai_output(graph, node_id, "preview", DepthaiNode::ColorCamera);
}

/// Ports of the mono camera template.
fn build_mono_camera_ports(graph: &mut Graph, node_id: usize)
    requires
        old(graph).wf(),
        node_id < old(graph).nodes@.len(),
        no_ports(*old(graph), node_id),
    ensures
        final(graph).wf(),
        built_ports(
            *old(graph),
            *final(graph),
            node_id,
            seq![spec_queue_in("inputConfig"@, DepthaiNode::MonoCamera), spec_queue_in("inputControl"@, DepthaiNode::MonoCamera)],
            seq![("out"@, MyDataType::Queue(DepthaiNode::MonoCamera))],
        ),
{
    build_depthai_input(graph, node_id, "inputConfig", DepthaiNode::MonoCamera);
    build_depthai_input(graph, node_id, "inputControl", DepthaiNode::MonoCamera);
    build_depthai_output(graph, node_id, "out", DepthaiNode::MonoCamera);
}

/// Ports of the image manipulation template.
fn build_image_manip_ports(graph: &mut Graph, node_id: usize)
    requires
        old(graph).wf(),
        node_id < old(graph).nodes@.len(),
        no_ports(*old(graph), node_id),
    ensures
        final(graph).wf(),
        built_ports(
            *old(graph),
            *final(graph),
            node_id,
            seq![spec_queue_in("inputImage"@, DepthaiNode::ImageManip), spec_queue_in("inputConfig"@, DepthaiNode::ImageManip)],
            seq![("out"@, MyDataType::Queue(DepthaiNode::ImageManip))],
        ),
{
    build_depthai_input(graph, node_id, "inputImage", DepthaiNode::ImageManip);
    build_depthai_input(graph, node_id, "inputConfig", DepthaiNode::ImageManip);
    build_depthai_output(graph, node_id, "out", DepthaiNode::ImageManip);
}

/// Ports of the video encoder template.
fn build_video_encoder_ports(graph: &mut Graph, node_id: usize)
    requires
        old(graph).wf(),
        node_id < old(graph).nodes@.len(),
        no_ports(*old(graph), node_id),
    ensures
        final(graph).wf(),
        built_ports(
            *old(graph),
            *final(graph),
            node_id,
            seq![spec_queue_in("in"@, DepthaiNode::VideoEncoder)],
            seq![("bitstream"@, MyDataType::Queue(DepthaiNode::VideoEncoder))],
        ),
{
    build_depthai_input(graph, node_id, "in", DepthaiNode::VideoEncoder);
    build_depthai_output(graph, node_id, "bitstream", DepthaiNode::VideoEncoder);
}

/// Ports of the neural network template.
fn build_neural_network_ports(graph: &mut Graph, node_id: usize)
    requires
        old(graph).wf(),
        node_id < old(graph).nodes@.len(),
        no_ports(*old(graph), node_id),
    ensures
        final(graph).wf(),
        built_ports(
            *old(graph),
            *final(graph),
            node_id,
            seq![spec_queue_in("in"@, DepthaiNode::NeuralNetwork)],
            seq![("out"@, MyDataType::Queue(DepthaiNode::NeuralNetwork)), ("passthrough"@, MyDataType::Queue(DepthaiNode::NeuralNetwork))],
        ),
{
    build_depthai_input(graph, node_id, "in", DepthaiNode::NeuralNetwork);
    build_depthai_output(graph, node_id, "out", DepthaiNode::NeuralNetwork);
    build_depthai_output(graph, node_id, "passthrough", DepthaiNode::NeuralNetwork);
}

/// Ports shared by the plain detection network templates.
fn build_detection_network_node(graph: &mut Graph, node_id: usize, depthai_node: DepthaiNode)
    requires
        old(graph).wf(),
        node_id < old(graph).nodes@.len(),
        no_ports(*old(graph), node_id),
    ensures
        final(graph).wf(),
        built_ports(
            *old(graph),
            *final(graph),
            node_id,
            seq![spec_queue_in("in"@, depthai_node)],
            spec_detection_outputs(depthai_node),
        ),
{
    build_depthai_input(graph, node_id, "in", depthai_node);
    build_depthai_output(graph, node_id, "out", depthai_node);
    build_depthai_output(graph, node_id, "passthrough", depthai_node);
    build_depthai_output(graph, node_id, "outNetwork", depthai_node);
}

/// Ports shared by the spatial detection network templates.
fn build_spatial_detection_network_node(graph: &mut Graph, node_id: usize, depthai_node: DepthaiNode)
    requires
        old(graph).wf(),
        node_id < old(graph).nodes@.len(),
        no_ports(*old(graph), node_id),
    ensures
        final(graph).wf(),
        built_ports(
            *old(graph),
            *final(graph),
            node_id,
            spec_spatial_inputs(depthai_node),
            spec_spatial_outputs(depthai_node),
        ),
{
    build_depthai_input(graph, node_id, "in", depthai_node);
    build_depthai_input(graph, node_id, "inputDepth", depthai_node);
    build_depthai_output(graph, node_id, "out", depthai_node);
    build_depthai_output(graph, node_id, "boundingBoxMapping", depthai_node);
    build_depthai_output(graph, node_id, "passthroughDepth", depthai_node);
    build_depthai_output(graph, node_id, "spatialLocationCalculatorOutput", depthai_node);
    build_depthai_output(graph, node_id, "passthrough", depthai_node);
}

/// Ports of the SPI-in template.
fn build_spi_in_ports(graph: &mut Graph, node_id: usize)
    requires
        old(graph).wf(),
        node_id < old(graph).nodes@.len(),
        no_ports(*old(graph), node_id),
    ensures
        final(graph).wf(),
        built_ports(
            *old(graph),
            *final(graph),
            node_id,
            seq![spec_queue_in("SPI (from MCU)"@, DepthaiNode::SPIIn)],
            seq![("out"@, MyDataType::Queue(DepthaiNode::SPIIn))],
        ),
{
    build_depthai_input(graph, node_id, "SPI (from MCU)", DepthaiNode::SPIIn);
    build_depthai_output(graph, node_id, "out", DepthaiNode::SPIIn);
}

/// Ports of the SPI-out template.
fn build_spi_out_ports(graph: &mut Graph, node_id: usize)
    requires
        old(graph).wf(),
        node_id < old(graph).nodes@.len(),
        no_ports(*old(graph), node_id),
    ensures
        final(graph).wf(),
        built_ports(
            *old(graph),
            *final(graph),
            node_id,
            seq![spec_queue_in("in"@, DepthaiNode::SPIOut)],
            seq![("SPI (to MCU)"@, MyDataType::Queue(DepthaiNode::SPIOut))],
        ),
{
    build_depthai_input(graph, node_id, "in", DepthaiNode::SPIOut);
    build_depthai_output(graph, node_id, "SPI (to MCU)", DepthaiNode::SPIOut);
}

/// Ports of the XLink-out template.
fn build_xlink_out_ports(graph: &mut Graph, node_id: usize)
    requires
        old(graph).wf(),
        node_id < old(graph).nodes@.len(),
        no_ports(*old(graph), node_id),
    ensures
        final(graph).wf(),
        built_ports(
            *old(graph),
            *final(graph),
            node_id,
            seq![spec_queue_in("in"@, DepthaiNode::XLinkOut)],
            seq![("XLink (to host)"@, MyDataType::Queue(DepthaiNode::XLinkOut))],
        ),
{
    build_depthai_input(graph, node_id, "in", DepthaiNode::XLinkOut);
    build_depthai_output(graph, node_id, "XLink (to host)", DepthaiNode::XLinkOut);
}

/// Ports of the XLink-in template.
fn build_xlink_in_ports(graph: &mut Graph, node_id: usize)
    requires
        old(graph).wf(),
        node_id < old(graph).nodes@.len(),
        no_ports(*old(graph), node_id),
    ensures
        final(graph).wf(),
        built_ports(
            *old(graph),
            *final(graph),
            node_id,
            seq![spec_queue_in("XLink (from host)"@, DepthaiNode::XLinkIn)],
            seq![("out"@, MyDataType::Queue(DepthaiNode::XLinkIn))],
        ),
{
    build_depthai_input(graph, node_id, "XLink (from host)", DepthaiNode::XLinkIn);
    build_depthai_output(graph, node_id, "out", DepthaiNode::XLinkIn);
}

/// Ports of the stereo depth template.
fn build_stereo_depth_ports(graph: &mut Graph, node_id: usize)
    requires
        old(graph).wf(),
        node_id < old(graph).nodes@.len(),
        no_ports(*old(graph), node_id),
    ensures
        final(graph).wf(),
        built_ports(
            *old(graph),
            *final(graph),
            node_id,
            seq![spec_queue_in("inputConfig"@, DepthaiNode::StereoDepth), spec_queue_in("left"@, DepthaiNode::StereoDepth), spec_queue_in("right"@, DepthaiNode::StereoDepth)],
            seq![("depth"@, MyDataType::Queue(DepthaiNode::StereoDepth)), ("disparity"@, MyDataType::Queue(DepthaiNode::StereoDepth)), ("rectifiedLeft"@, MyDataType::Queue(DepthaiNode::StereoDepth)), ("rectifiedRight"@, MyDataType::Queue(DepthaiNode::StereoDepth)), ("syncedLeft"@, MyDataType::Queue(DepthaiNode::StereoDepth)), ("syncedRight"@, MyDataType::Queue(DepthaiNode::StereoDepth)), ("confidenceMap"@, MyDataType::Queue(DepthaiNode::StereoDepth))],
        ),
{
    build_depthai_input(graph, node_id, "inputConfig", DepthaiNode::StereoDepth);
    build_depthai_input(graph, node_id, "left", DepthaiNode::StereoDepth);
    build_depthai_input(graph, node_id, "right", DepthaiNode::StereoDepth);
    build_depthai_output(graph, node_id, "depth", DepthaiNode::StereoDepth);
    build_depthai_output(graph, node_id, "disparity", DepthaiNode::StereoDepth);
    build_depthai_output(graph, node_id, "rectifiedLeft", DepthaiNode::StereoDepth);
    build_depthai_output(graph, node_id, "rectifiedRight", DepthaiNode::StereoDepth);
    build_depthai_output(graph, node_id, "syncedLeft", DepthaiNode::StereoDepth);
    build_depthai_output(graph, node_id, "syncedRight", DepthaiNode::StereoDepth);
    build_depthai_output(graph, node_id, "confidenceMap", DepthaiNode::StereoDepth);
}

/// Ports of the spatial location calculator template.
fn build_spatial_location_calculator_ports(graph: &mut Graph, node_id: usize)
    requires
        old(graph).wf(),
        node_id < old(graph).nodes@.len(),
        no_ports(*old(graph), node_id),
    ensures
        final(graph).wf(),
        built_ports(
            *old(graph),
            *final(graph),
            node_id,
            seq![spec_queue_in("inputConfig"@, DepthaiNode::SpatialLocationCalculator), spec_queue_in("inputDepth"@, DepthaiNode::SpatialLocationCalculator)],
            seq![("out"@, MyDataType::Queue(DepthaiNode::SpatialLocationCalculator)), ("passthroughDepth"@, MyDataType::Queue(DepthaiNode::SpatialLocationCalculator))],
        ),
{
    build_depthai_input(graph, node_id, "inputConfig", DepthaiNode::SpatialLocationCalculator);
    build_depthai_input(graph, node_id, "inputDepth", DepthaiNode::SpatialLocationCalculator);
    build_depthai_output(graph, node_id, "out", DepthaiNode::SpatialLocationCalculator);
    build_depthai_output(graph, node_id, "passthroughDepth", DepthaiNode::SpatialLocationCalculator);
}

/// Ports of the edge detector template.
fn build_edge_detector_ports(graph: &mut Graph, node_id: usize)
    requires
        old(graph).wf(),
        node_id < old(graph).nodes@.len(),
        no_ports(*old(graph), node_id),
    ensures
        final(graph).wf(),
        built_ports(
            *old(graph),
            *final(graph),
            node_id,
            seq![spec_queue_in("inputConfig"@, DepthaiNode::EdgeDetector), spec_queue_in("inputImage"@, DepthaiNode::EdgeDetector)],
            seq![("outputImage"@, MyDataType::Queue(DepthaiNode::EdgeDetector))],
        ),
{
    build_depthai_input(graph, node_id, "inputConfig", DepthaiNode::EdgeDetector);
    build_depthai_input(graph, node_id, "inputImage", DepthaiNode::EdgeDetector);
    build_depthai_output(graph, node_id, "outputImage", DepthaiNode::EdgeDetector);
}

/// Ports of the feature tracker template.
fn build_feature_tracker_ports(graph: &mut Graph, node_id: usize)
    requires
        old(graph).wf(),
        node_id < old(graph).nodes@.len(),
        no_ports(*old(graph), node_id),
    ensures
        final(graph).wf(),
        built_ports(
            *old(graph),
            *final(graph),
            node_id,
            seq![spec_queue_in("inputConfig"@, DepthaiNode::FeaureTracker), spec_queue_in("inputImage"@, DepthaiNode::FeaureTracker)],
            seq![("outputFeatures"@, MyDataType::Queue(DepthaiNode::FeaureTracker)), ("passthroughInputImage"@, MyDataType::Queue(DepthaiNode::FeaureTracker))],
        ),
{
    build_depthai_input(graph, node_id, "inputConfig", DepthaiNode::FeaureTracker);
    build_depthai_input(graph, node_id, "inputImage", DepthaiNode::FeaureTracker);
    build_depthai_output(graph, node_id, "outputFeatures", DepthaiNode::FeaureTracker);
    build_depthai_output(graph, node_id, "passthroughInputImage", DepthaiNode::FeaureTracker);
}

/// Ports of the object tracker template.
fn build_object_tracker_ports(graph: &mut Graph, node_id: usize)
    requires
        old(graph).wf(),
        node_id < old(graph).nodes@.len(),
        no_ports(*old(graph), node_id),
    ensures
        final(graph).wf(),
        built_ports(
            *old(graph),
            *final(graph),
            node_id,
            seq![spec_queue_in("inputDetectionFrame"@, DepthaiNode::ObjectTracker), spec_queue_in("inputDetections"@, DepthaiNode::ObjectTracker), spec_queue_in("inputTrackerFrame"@, DepthaiNode::ObjectTracker)],
            seq![("out"@, MyDataType::Queue(DepthaiNode::ObjectTracker)), ("passthroughDetectionFrame"@, MyDataType::Queue(DepthaiNode::ObjectTracker)), ("passthroughDetections"@, MyDataType::Queue(DepthaiNode::ObjectTracker)), ("passthroughTrackerFrame"@, MyDataType::Queue(DepthaiNode::ObjectTracker))],
        ),
{
    build_depthai_input(graph, node_id, "inputDetectionFrame", DepthaiNode::ObjectTracker);
    build_depthai_input(graph, node_id, "inputDetections", DepthaiNode::ObjectTracker);
    build_depthai_input(graph, node_id, "inputTrackerFrame", DepthaiNode::ObjectTracker);
    build_depthai_output(graph, node_id, "out", DepthaiNode::ObjectTracker);
    build_depthai_output(graph, node_id, "passthroughDetectionFrame", DepthaiNode::ObjectTracker);
    build_depthai_output(graph, node_id, "passthroughDetections", DepthaiNode::ObjectTracker);
    build_depthai_output(graph, node_id, "passthroughTrackerFrame", DepthaiNode::ObjectTracker);
}

/// Ports of the IMU template.
fn build_imu_ports(graph: &mut Graph, node_id: usize)
    requires
        old(graph).wf(),
        node_id < old(graph).nodes@.len(),
        no_ports(*old(graph), node_id),
    ensures
        final(graph).wf(),
        built_ports(
            *old(graph),
            *final(graph),
            node_id,
            Seq::empty(),
            seq![("out"@, MyDataType::Queue(DepthaiNode::IMU))],
        ),
{
    build_depthai_output(graph, node_id, "out", DepthaiNode::IMU);
}

/// Ports of a script template: one queue input and output per listed name.
fn build_script_ports(
    graph: &mut Graph,
    node_id: usize,
    input_names: &Vec<String>,
    output_names: &Vec<String>,
)
    requires
        old(graph).wf(),
        node_id < old(graph).nodes@.len(),
        no_ports(*old(graph), node_id),
    ensures
        final(graph).wf(),
        built_ports(
            *old(graph),
            *final(graph),
            node_id,
            input_names.deep_view().map_values(|nm: Seq<char>| spec_queue_in(nm, DepthaiNode::Script)),
            output_names.deep_view().map_values(
                |nm: Seq<char>| (nm, MyDataType::Queue(DepthaiNode::Script)),
            ),
        ),
{
    let ghost g0 = *graph;
    let ghost ins = input_names.deep_view().map_values(
        |nm: Seq<char>| spec_queue_in(nm, DepthaiNode::Script),
    );
    let ghost outs = output_names.deep_view().map_values(
        |nm: Seq<char>| (nm, MyDataType::Queue(DepthaiNode::Script)),
    );
    let n_in = input_names.len();
    let mut k: usize = 0;
    while k < n_in
        invariant
            n_in == input_names.len(),
            0 <= k <= n_in,
            ins.len() == n_in,
            ins == input_names.deep_view().map_values(
                |nm: Seq<char>| spec_queue_in(nm, DepthaiNode::Script),
            ),
            graph.wf(),
            node_id < graph.nodes@.len(),
            g0.wf(),
            no_ports(g0, node_id),
            node_id < g0.nodes@.len(),
            built_ports(g0, *graph, node_id, ins.take(k as int), Seq::empty()),
        decreases n_in - k,
    {
        build_depthai_input(graph, node_id, input_names[k].as_str(), DepthaiNode::Script);
        proof {
            assert(ins.take(k + 1 as int) =~= ins.take(k as int).push(ins[k as int]));
        }
        k += 1;
    }
    proof {
        assert(ins.take(n_in as int) =~= ins);
    }
    let ghost g_mid = *graph;
    let n_out = output_names.len();
    let mut k: usize = 0;
    while k < n_out
        invariant
            n_out == output_names.len(),
            0 <= k <= n_out,
            outs.len() == n_out,
            outs == output_names.deep_view().map_values(
                |nm: Seq<char>| (nm, MyDataType::Queue(DepthaiNode::Script)),
            ),
            ins.len() == n_in,
            graph.wf(),
            node_id < graph.nodes@.len(),
            g0.wf(),
            no_ports(g0, node_id),
            node_id < g0.nodes@.len(),
            built_ports(g0, *graph, node_id, ins, outs.take(k as int)),
        decreases n_out - k,
    {
        build_depthai_output(graph, node_id, output_names[k].as_str(), DepthaiNode::Script);
        proof {
            assert(outs.take(k + 1 as int) =~= outs.take(k as int).push(outs[k as int]));
        }
        k += 1;
    }
    proof {
        assert(outs.take(n_out as int) =~= outs);
    }
}

impl MyNodeTemplate {
    /// Gives the empty node `node_id` the input and output ports this
    /// template calls for, in order.
    pub fn build_node(&self, graph: &mut Graph, node_id: usize)
        requires
            old(graph).wf(),
            node_id < old(graph).nodes@.len(),
            no_ports(*old(graph), node_id),
        ensures
            final(graph).wf(),
            built_ports(
                *old(graph),
                *final(graph),
                node_id,
                spec_input_ports(*self),
                spec_output_ports(*self),
            ),
    {
        match self {
            MyNodeTemplate::AddScalar => build_scalar_binop_ports(graph, node_id),
            MyNodeTemplate::SubtractScalar => build_scalar_binop_ports(graph, node_id),
            MyNodeTemplate::VectorTimesScalar => build_vector_times_scalar_ports(graph, node_id),
            MyNodeTemplate::AddVector => build_vector_binop_ports(graph, node_id),
            MyNodeTemplate::SubtractVector => build_vector_binop_ports(graph, node_id),
            MyNodeTemplate::MakeVector => build_make_vector_ports(graph, node_id),
            MyNodeTemplate::MakeScalar => build_make_scalar_ports(graph, node_id),
            MyNodeTemplate::CreateColorCamera => build_color_camera_ports(graph, node_id),
            MyNodeTemplate::CreateMonoCamera => build_mono_camera_ports(graph, node_id),
            MyNodeTemplate::CreateImageManip => build_image_manip_ports(graph, node_id),
            MyNodeTemplate::CreateVideoEncoder => build_video_encoder_ports(graph, node_id),
            MyNodeTemplate::CreateNeuralNetwork => build_neural_network_ports(graph, node_id),
            MyNodeTemplate::CreateDetectionNetwork => build_detection_network_node(
                graph,
                node_id,
                DepthaiNode::DetectionNetwork,
            ),
            MyNodeTemplate::CreateMobileNetDetectionNetwork => build_detection_network_node(
                graph,
                node_id,
                DepthaiNode::MobileNetDetectionNetwork,
            ),
            MyNodeTemplate::CreateYoloDetectionNetwork => build_detection_network_node(
                graph,
                node_id,
                DepthaiNode::YoloDetectionNetwork,
            ),
            MyNodeTemplate::CreateMobileNetSpatialDetectionNetwork =>
                build_spatial_detection_network_node(
                graph,
                node_id,
                DepthaiNode::MobileNetSpatialDetectionNetwork,
            ),
            MyNodeTemplate::CreateYoloSpatialDetectionNetwork =>
                build_spatial_detection_network_node(
                graph,
                node_id,
                DepthaiNode::YoloSpatialDetectionNetwork,
            ),
            MyNodeTemplate::CreateSpatialDetectionNetwork => build_spatial_detection_network_node(
                graph,
                node_id,
                DepthaiNode::SpatialDetectionNetwork,
            ),
            MyNodeTemplate::CreateSPIIn => build_spi_in_ports(graph, node_id),
            MyNodeTemplate::CreateSPIOut => build_spi_out_ports(graph, node_id),
            MyNodeTemplate::CreateXLinkOut => build_xlink_out_ports(graph, node_id),
            MyNodeTemplate::CreateXLinkIn => build_xlink_in_ports(graph, node_id),
            MyNodeTemplate::CreateScript(input_names, output_names) => build_script_ports(
                graph,
                node_id,
                input_names,
                output_names,
            ),
            MyNodeTemplate::CreateStereoDepth => build_stereo_depth_ports(graph, node_id),
            MyNodeTemplate::CreateSpatialLocationCalculator =>
                build_spatial_location_calculator_ports(graph, node_id),
            MyNodeTemplate::CreateEdgeDetector => build_edge_detector_ports(graph, node_id),
            MyNodeTemplate::CreateFeaureTracker => build_feature_tracker_ports(graph, node_id),
            MyNodeTemplate::CreateObjectTracker => build_object_tracker_ports(graph, node_id),
            MyNodeTemplate::CreateIMU => build_imu_ports(graph, node_id),
        }
    }
}

} // verus!
