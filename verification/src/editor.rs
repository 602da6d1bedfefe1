use vstd::prelude::*;

use std::collections::HashMap;

use crate::graph::lemma_find_port_in_list;
use crate::graph::spec_find_port;
use crate::graph::Graph;
use crate::ports::spec_in_param;
use crate::ports::spec_input_ports;
use crate::ports::spec_out_param;
use crate::ports::spec_output_ports;
use crate::schema::same_but_pos;
use crate::schema::spec_script_inputs;
use crate::schema::spec_script_outputs;
use crate::schema::spec_template_known;
use crate::schema::spec_template_matches;
use crate::schema::Connection;
use crate::schema::Node;
use crate::schema::Schema;
use crate::template::MyNodeData;
use crate::template::MyNodeTemplate;
use crate::value::MyDataType;
use crate::value::MyValueType;

verus! {

broadcast use vstd::std_specs::hash::group_hash_axioms;

/// The failures of the schema importer.
#[derive(PartialEq, Eq, Structural, Clone, Copy, Debug)]
pub enum ImportError {
    /// A schema node's name is not one of the recognised kinds.
    UnknownNodeKind,
    /// A connection names a node id that the schema does not list.
    UnknownNodeId,
    /// A connection names a port that its node does not have.
    NoSuchParameter,
}

/// What an `ImportError` reads as when reported to the user.
pub open spec fn spec_import_error_message(e: ImportError) -> Seq<char> {
    match e {
        ImportError::UnknownNodeKind => "unknown node kind"@,
        ImportError::UnknownNodeId => "a connection names an unlisted node id"@,
        ImportError::NoSuchParameter => "a connection names a missing port"@,
    }
}

impl ImportError {
    /// Renders this failure as text.
    pub fn message(&self) -> (r: String)
        ensures
            r@ == spec_import_error_message(*self),
    {
        match self {
            ImportError::UnknownNodeKind => "unknown node kind".to_owned(),
            ImportError::UnknownNodeId => "a connection names an unlisted node id".to_owned(),
            ImportError::NoSuchParameter => "a connection names a missing port".to_owned(),
        }
    }
}

/// The editor's document: the node graph, and the position and stacking
/// order of each node.
pub struct EditorState {
    pub graph: Graph,
    pub node_positions: Vec<(i64, i64)>,
    pub node_order: Vec<usize>,
}

impl EditorState {
    /// The graph is well formed, every node has a position, and the order
    /// lists existing nodes.
    pub open spec fn wf(self) -> bool {
        &&& self.graph.wf()
        &&& self.node_positions@.len() == self.graph.nodes@.len()
        &&& forall|i: int|
            0 <= i < self.node_order@.len() ==> (#[trigger] self.node_order@[i])
                < self.graph.nodes@.len()
    }

    /// An empty document.
    pub fn new() -> (s: EditorState)
        ensures
            s.wf(),
            s.graph.nodes@.len() == 0,
            s.node_positions@.len() == 0,
            s.node_order@.len() == 0,
    {
        EditorState { graph: Graph::new(), node_positions: Vec::new(), node_order: Vec::new() }
    }
}

/// The index of the last schema node carrying `id`, if any: when ids repeat,
/// the later listing wins.
pub open spec fn spec_rfind_node(nodes: Seq<(i32, Node)>, id: i32) -> Option<int>
    decreases nodes.len(),
{
    if nodes.len() == 0 {
        None
    } else if nodes.last().0 == id {
        Some((nodes.len() - 1) as int)
    } else {
        spec_rfind_node(nodes.drop_last(), id)
    }
}

/// A found index is in range and carries the id.
pub proof fn lemma_rfind_node_in_range(nodes: Seq<(i32, Node)>, id: i32)
    requires
        spec_rfind_node(nodes, id) is Some,
    ensures
        0 <= spec_rfind_node(nodes, id)->Some_0 < nodes.len(),
        nodes[spec_rfind_node(nodes, id)->Some_0].0 == id,
    decreases nodes.len(),
{
    if nodes.len() > 0 && nodes.last().0 != id {
        lemma_rfind_node_in_range(nodes.drop_last(), id);
    }
}

/// The input port names a template builds.
pub open spec fn spec_template_in_names(t: MyNodeTemplate) -> Seq<Seq<char>> {
    spec_input_ports(t).map_values(|p: (Seq<char>, MyDataType, MyValueType)| p.0)
}

/// The output port names a template builds.
pub open spec fn spec_template_out_names(t: MyNodeTemplate) -> Seq<Seq<char>> {
    spec_output_ports(t).map_values(|p: (Seq<char>, MyDataType)| p.0)
}

/// The input port names the imported form of a schema node has: those of its
/// template, which for script nodes come from its io table.
pub open spec fn spec_schema_in_names(n: Node) -> Seq<Seq<char>> {
    if n.name@ == "ColorCamera"@ {
        spec_template_in_names(MyNodeTemplate::CreateColorCamera)
    } else if n.name@ == "MonoCamera"@ {
        spec_template_in_names(MyNodeTemplate::CreateMonoCamera)
    } else if n.name@ == "ImageManip"@ {
        spec_template_in_names(MyNodeTemplate::CreateImageManip)
    } else if n.name@ == "VideoEncoder"@ {
        spec_template_in_names(MyNodeTemplate::CreateVideoEncoder)
    } else if n.name@ == "NeuralNetwork"@ {
        spec_template_in_names(MyNodeTemplate::CreateNeuralNetwork)
    } else if n.name@ == "DetectionNetwork"@ {
        spec_template_in_names(MyNodeTemplate::CreateDetectionNetwork)
    } else if n.name@ == "MobileNetDetectionNetwork"@ {
        spec_template_in_names(MyNodeTemplate::CreateMobileNetDetectionNetwork)
    } else if n.name@ == "MobileNetSpatialDetectionNetwork"@ {
        spec_template_in_names(MyNodeTemplate::CreateMobileNetSpatialDetectionNetwork)
    } else if n.name@ == "YoloDetectionNetwork"@ {
        spec_template_in_names(MyNodeTemplate::CreateYoloDetectionNetwork)
    } else if n.name@ == "YoloSpatialDetectionNetwork"@ {
        spec_template_in_names(MyNodeTemplate::CreateYoloSpatialDetectionNetwork)
    } else if n.name@ == "SPIIn"@ {
        spec_template_in_names(MyNodeTemplate::CreateSPIIn)
    } else if n.name@ == "SPIOut"@ {
        spec_template_in_names(MyNodeTemplate::CreateSPIOut)
    } else if n.name@ == "XLinkIn"@ {
        spec_template_in_names(MyNodeTemplate::CreateXLinkIn)
    } else if n.name@ == "XLinkOut"@ {
        spec_template_in_names(MyNodeTemplate::CreateXLinkOut)
    } else if n.name@ == "Script"@ {
        spec_script_inputs(n.io_info@)
    } else if n.name@ == "StereoDepth"@ {
        spec_template_in_names(MyNodeTemplate::CreateStereoDepth)
    } else if n.name@ == "SpatialLocationCalculator"@ {
        spec_template_in_names(MyNodeTemplate::CreateSpatialLocationCalculator)
    } else if n.name@ == "EdgeDetector"@ {
        spec_template_in_names(MyNodeTemplate::CreateEdgeDetector)
    } else if n.name@ == "FeaureTracker"@ {
        spec_template_in_names(MyNodeTemplate::CreateFeaureTracker)
    } else if n.name@ == "ObjectTracker"@ {
        spec_template_in_names(MyNodeTemplate::CreateObjectTracker)
    } else if n.name@ == "IMU"@ {
        spec_template_in_names(MyNodeTemplate::CreateIMU)
    } else {
        Seq::empty()
    }
}

/// The output port names the imported form of a schema node has.
pub open spec fn spec_schema_out_names(n: Node) -> Seq<Seq<char>> {
    if n.name@ == "ColorCamera"@ {
        spec_template_out_names(MyNodeTemplate::CreateColorCamera)
    } else if n.name@ == "MonoCamera"@ {
        spec_template_out_names(MyNodeTemplate::CreateMonoCamera)
    } else if n.name@ == "ImageManip"@ {
        spec_template_out_names(MyNodeTemplate::CreateImageManip)
    } else if n.name@ == "VideoEncoder"@ {
        spec_template_out_names(MyNodeTemplate::CreateVideoEncoder)
    } else if n.name@ == "NeuralNetwork"@ {
        spec_template_out_names(MyNodeTemplate::CreateNeuralNetwork)
    } else if n.name@ == "DetectionNetwork"@ {
        spec_template_out_names(MyNodeTemplate::CreateDetectionNetwork)
    } else if n.name@ == "MobileNetDetectionNetwork"@ {
        spec_template_out_names(MyNodeTemplate::CreateMobileNetDetectionNetwork)
    } else if n.name@ == "MobileNetSpatialDetectionNetwork"@ {
        spec_template_out_names(MyNodeTemplate::CreateMobileNetSpatialDetectionNetwork)
    } else if n.name@ == "YoloDetectionNetwork"@ {
        spec_template_out_names(MyNodeTemplate::CreateYoloDetectionNetwork)
    } else if n.name@ == "YoloSpatialDetectionNetwork"@ {
        spec_template_out_names(MyNodeTemplate::CreateYoloSpatialDetectionNetwork)
    } else if n.name@ == "SPIIn"@ {
        spec_template_out_names(MyNodeTemplate::CreateSPIIn)
    } else if n.name@ == "SPIOut"@ {
        spec_template_out_names(MyNodeTemplate::CreateSPIOut)
    } else if n.name@ == "XLinkIn"@ {
        spec_template_out_names(MyNodeTemplate::CreateXLinkIn)
    } else if n.name@ == "XLinkOut"@ {
        spec_template_out_names(MyNodeTemplate::CreateXLinkOut)
    } else if n.name@ == "Script"@ {
        spec_script_outputs(n.io_info@)
    } else if n.name@ == "StereoDepth"@ {
        spec_template_out_names(MyNodeTemplate::CreateStereoDepth)
    } else if n.name@ == "SpatialLocationCalculator"@ {
        spec_template_out_names(MyNodeTemplate::CreateSpatialLocationCalculator)
    } else if n.name@ == "EdgeDetector"@ {
        spec_template_out_names(MyNodeTemplate::CreateEdgeDetector)
    } else if n.name@ == "FeaureTracker"@ {
        spec_template_out_names(MyNodeTemplate::CreateFeaureTracker)
    } else if n.name@ == "ObjectTracker"@ {
        spec_template_out_names(MyNodeTemplate::CreateObjectTracker)
    } else if n.name@ == "IMU"@ {
        spec_template_out_names(MyNodeTemplate::CreateIMU)
    } else {
        Seq::empty()
    }
}

/// A template matching a schema node has exactly the node's port names.
pub proof fn lemma_template_port_names(n: Node, t: MyNodeTemplate)
    requires
        spec_template_matches(n, t),
    ensures
        spec_template_in_names(t) == spec_schema_in_names(n),
        spec_template_out_names(t) == spec_schema_out_names(n),
{
    match t {
        MyNodeTemplate::CreateScript(ins, outs) => {
            let iv = ins.deep_view();
            let ov = outs.deep_view();
            assert forall|j: int| 0 <= j < iv.len() implies spec_template_in_names(t)[j]
                == iv[j] by {}
            assert(spec_template_in_names(t) =~= iv);
            assert forall|j: int| 0 <= j < ov.len() implies spec_template_out_names(t)[j]
                == ov[j] by {}
            assert(spec_template_out_names(t) =~= ov);
        },
        _ => {},
    }
}

/// Matching templates are interchangeable up to the information they carry.
pub proof fn lemma_template_matches_equiv(n: Node, t: MyNodeTemplate, t2: MyNodeTemplate)
    requires
        spec_template_matches(n, t),
        t.equiv(t2),
    ensures
        spec_template_matches(n, t2),
{
}

/// A port list has an entry named `name` exactly when the find succeeds.
pub proof fn lemma_find_port_iff(ports: Seq<(String, usize)>, name: Seq<char>)
    ensures
        (spec_find_port(ports, name) is Some) <==> (exists|j: int|
            0 <= j < ports.len() && (#[trigger] ports[j]).0@ == name),
    decreases ports.len(),
{
    if ports.len() == 0 {
    } else if ports[0].0@ == name {
    } else {
        lemma_find_port_iff(ports.drop_first(), name);
        if exists|j: int| 0 <= j < ports.len() && (#[trigger] ports[j]).0@ == name {
            let j = choose|j: int| 0 <= j < ports.len() && (#[trigger] ports[j]).0@ == name;
            assert(ports.drop_first()[j - 1].0@ == name);
        }
        if exists|j: int|
            0 <= j < ports.drop_first().len() && (#[trigger] ports.drop_first()[j]).0@ == name {
            let j = choose|j: int|
                0 <= j < ports.drop_first().len() && (#[trigger] ports.drop_first()[j]).0@ == name;
            assert(ports[j + 1].0@ == name);
        }
    }
}

/// Node `base + j` of the graph is the imported form of schema node `j`: the
/// schema node's name as its label, a matching template, the template's port
/// names in order, and the template's port types and starting constants in
/// the graph's port tables.
pub open spec fn imported_node_at(g: Graph, nodes: Seq<(i32, Node)>, base: int, j: int) -> bool {
    let nd = g.nodes@[base + j];
    let sn = nodes[j].1;
    &&& nd.label@ == sn.name@
    &&& spec_template_known(sn.name@)
    &&& spec_template_matches(sn, nd.user_data.template)
    &&& nd.inputs@.len() == spec_schema_in_names(sn).len()
    &&& forall|p: int|
        0 <= p < nd.inputs@.len() ==> (#[trigger] nd.inputs@[p]).0@ == spec_schema_in_names(sn)[p]
    &&& nd.outputs@.len() == spec_schema_out_names(sn).len()
    &&& forall|p: int|
        0 <= p < nd.outputs@.len() ==> (#[trigger] nd.outputs@[p]).0@ == spec_schema_out_names(
            sn,
        )[p]
    &&& forall|p: int|
        0 <= p < nd.inputs@.len() ==> g.inputs@[(#[trigger] nd.inputs@[p]).1 as int]
            == spec_in_param((base + j) as usize, spec_input_ports(nd.user_data.template)[p])
    &&& forall|p: int|
        0 <= p < nd.outputs@.len() ==> g.outputs@[(#[trigger] nd.outputs@[p]).1 as int]
            == spec_out_param((base + j) as usize, spec_output_ports(nd.user_data.template)[p])
}

/// Equivalent templates build the same ports.
pub proof fn lemma_equiv_ports(t: MyNodeTemplate, t2: MyNodeTemplate)
    requires
        t.equiv(t2),
    ensures
        spec_input_ports(t) == spec_input_ports(t2),
        spec_output_ports(t) == spec_output_ports(t2),
{
}

/// The first `k` schema nodes are imported at `base`.
pub open spec fn imported_nodes(g: Graph, nodes: Seq<(i32, Node)>, base: int, k: int) -> bool {
    forall|j: int| 0 <= j < k ==> imported_node_at(g, nodes, base, j)
}

/// A connection can be imported: both end nodes are listed, and each names a
/// port its node's template has. Equivalently, importing it produces no
/// error.
pub open spec fn spec_conn_ok(nodes: Seq<(i32, Node)>, c: Connection) -> bool {
    spec_conn_error(nodes, c) is None
}

/// The failure a single connection produces at import, if any, checked in
/// import order: an unlisted source id, an unlisted destination id, a
/// missing output name on the source node's template, a missing input name
/// on the destination node's template.
pub open spec fn spec_conn_error(nodes: Seq<(i32, Node)>, c: Connection) -> Option<ImportError> {
    if spec_rfind_node(nodes, c.source_node) is None {
        Some(ImportError::UnknownNodeId)
    } else if spec_rfind_node(nodes, c.dest_node) is None {
        Some(ImportError::UnknownNodeId)
    } else if !(exists|p: int|
        0 <= p < spec_schema_out_names(nodes[spec_rfind_node(nodes, c.source_node)->Some_0].1).len()
            && spec_schema_out_names(nodes[spec_rfind_node(nodes, c.source_node)->Some_0].1)[p]
            == c.source_node_output@) {
        Some(ImportError::NoSuchParameter)
    } else if !(exists|p: int|
        0 <= p < spec_schema_in_names(nodes[spec_rfind_node(nodes, c.dest_node)->Some_0].1).len()
            && spec_schema_in_names(nodes[spec_rfind_node(nodes, c.dest_node)->Some_0].1)[p]
            == c.dest_node_input@) {
        Some(ImportError::NoSuchParameter)
    } else {
        None
    }
}

/// The error of the first failing connection from `from` on, if any.
pub open spec fn spec_first_conn_error_from(
    nodes: Seq<(i32, Node)>,
    conns: Seq<Connection>,
    from: int,
) -> Option<ImportError>
    decreases conns.len() - from,
{
    if from < 0 || from >= conns.len() {
        None
    } else {
        match spec_conn_error(nodes, conns[from]) {
            Some(e) => Some(e),
            None => spec_first_conn_error_from(nodes, conns, from + 1),
        }
    }
}

/// The index of the first schema node from `from` on whose kind is not
/// recognised, if any.
pub open spec fn spec_first_unknown_from(nodes: Seq<(i32, Node)>, from: int) -> Option<int>
    decreases nodes.len() - from,
{
    if from < 0 || from >= nodes.len() {
        None
    } else if !spec_template_known(nodes[from].1.name@) {
        Some(from)
    } else {
        spec_first_unknown_from(nodes, from + 1)
    }
}

/// The typed error the import returns, if any: the first unrecognised node
/// kind wins, else the first failing connection decides.
pub open spec fn spec_import_error(sch: Schema) -> Option<ImportError> {
    if spec_first_unknown_from(sch.nodes@, 0) is Some {
        Some(ImportError::UnknownNodeKind)
    } else {
        spec_first_conn_error_from(sch.nodes@, sch.connections@, 0)
    }
}

/// The whole schema can be imported: every node kind is recognised and every
/// connection resolves.
pub open spec fn spec_import_ok(sch: Schema) -> bool {
    &&& forall|j: int|
        0 <= j < sch.nodes@.len() ==> spec_template_known((#[trigger] sch.nodes@[j]).1.name@)
    &&& forall|ci: int|
        0 <= ci < sch.connections@.len() ==> spec_conn_ok(
            sch.nodes@,
            #[trigger] sch.connections@[ci],
        )
}

/// The graph input port a connection resolves to: the port named by the
/// connection on the imported form of its destination node.
pub open spec fn spec_conn_input(
    g: Graph,
    nodes: Seq<(i32, Node)>,
    base: int,
    c: Connection,
) -> Option<usize> {
    match spec_rfind_node(nodes, c.dest_node) {
        Some(dj) => g.nodes@[base + dj].spec_get_input(c.dest_node_input@),
        None => None,
    }
}

/// The graph output port a connection resolves to: the port named by the
/// connection on the imported form of its source node.
pub open spec fn spec_conn_output(
    g: Graph,
    nodes: Seq<(i32, Node)>,
    base: int,
    c: Connection,
) -> Option<usize> {
    match spec_rfind_node(nodes, c.source_node) {
        Some(sj) => g.nodes@[base + sj].spec_get_output(c.source_node_output@),
        None => None,
    }
}

/// Connection `ci` of `conns` is wired in the graph: both of its ends
/// resolve to ports of the imported nodes, and the destination input carries
/// exactly the resolved source output — unless some later connection before
/// `upto` resolves to the same input, in which case that later connection
/// pins the input (the last one wins) and here it is only known to be wired.
pub open spec fn conn_wired(
    g: Graph,
    nodes: Seq<(i32, Node)>,
    base: int,
    conns: Seq<Connection>,
    ci: int,
    upto: int,
) -> bool {
    let c = conns[ci];
    &&& spec_conn_output(g, nodes, base, c) is Some
    &&& spec_conn_input(g, nodes, base, c) is Some
    &&& {
        let iid = spec_conn_input(g, nodes, base, c)->Some_0;
        if exists|c2: int|
            ci < c2 < upto && spec_conn_input(g, nodes, base, #[trigger] conns[c2]) == Some(iid) {
            g.spec_connection(iid) is Some
        } else {
            g.spec_connection(iid) == Some(spec_conn_output(g, nodes, base, c)->Some_0)
        }
    }
}

/// How many schema nodes the import added: all of them, unless it stopped at
/// the first unrecognised node kind.
pub open spec fn spec_imported_count(r: Result<(), ImportError>, sch: Schema) -> int {
    if r == Err::<(), ImportError>(ImportError::UnknownNodeKind) {
        spec_first_unknown_from(sch.nodes@, 0)->Some_0
    } else {
        sch.nodes@.len() as int
    }
}

/// The first `k` schema nodes were appended to the document: one imported
/// graph node each, with its position and stacking order, everything already
/// in the document kept in place.
pub open spec fn imported_prefix(
    pre: EditorState,
    post: EditorState,
    nodes: Seq<(i32, Node)>,
    k: int,
) -> bool {
    let base = pre.graph.nodes@.len() as int;
    &&& post.graph.nodes@.len() == base + k
    &&& imported_nodes(post.graph, nodes, base, k)
    &&& post.node_positions@.len() == pre.node_positions@.len() + k
    &&& forall|j: int|
        0 <= j < pre.node_positions@.len() ==> post.node_positions@[j] == pre.node_positions@[j]
    &&& forall|j: int|
        0 <= j < k ==> post.node_positions@[pre.node_positions@.len() + j] == (
        #[trigger] nodes[j]).1.position
    &&& post.node_order@.len() == pre.node_order@.len() + k
    &&& forall|j: int|
        0 <= j < pre.node_order@.len() ==> post.node_order@[j] == pre.node_order@[j]
    &&& forall|j: int|
        0 <= j < k ==> #[trigger] post.node_order@[pre.node_order@.len() + j] == base + j
}

impl EditorState {
    /// Loads a schema dump into the document: lays the schema's nodes out,
    /// then appends one graph node per schema node, with its template's
    /// ports, position and stacking order, and wires every connection, later
    /// connections overriding earlier ones that reach the same input. The
    /// import succeeds exactly when every node kind is recognised and every
    /// connection resolves; otherwise it returns the first failure's error,
    /// and the document keeps the nodes added before the failure, still well
    /// formed.
    #[verifier::rlimit(100)]
    #[verifier::spinoff_prover]
    pub fn create_nodes_from_dump(&mut self, schema: &mut Schema) -> (r: Result<(), ImportError>)
        requires
            old(self).wf(),
        ensures
            final(self).wf(),
            final(schema).connections == old(schema).connections,
            final(schema).nodes@.len() == old(schema).nodes@.len(),
            forall|i: int|
                0 <= i < old(schema).nodes@.len() ==> (#[trigger] final(schema).nodes@[i]).0 == old(
                    schema,
                ).nodes@[i].0 && same_but_pos(old(schema).nodes@[i].1, final(schema).nodes@[i].1),
            (r is Ok) <==> spec_import_ok(*final(schema)),
            r matches Err(e) ==> spec_import_error(*final(schema)) == Some(e),
            r == Err::<(), ImportError>(ImportError::UnknownNodeKind) ==> spec_first_unknown_from(
                final(schema).nodes@,
                0,
            ) is Some,
            imported_prefix(
                *old(self),
                *final(self),
                final(schema).nodes@,
                spec_imported_count(r, *final(schema)),
            ),
            r is Ok ==> forall|ci: int|
                0 <= ci < final(schema).connections@.len() ==> conn_wired(
                    final(self).graph,
                    final(schema).nodes@,
                    old(self).graph.nodes@.len() as int,
                    final(schema).connections@,
                    ci,
                    final(schema).connections@.len() as int,
                ),
    {
        schema.auto_layout_nodes();
        let ghost base = self.graph.nodes@.len() as int;
        let ghost sch_nodes = schema.nodes@;
        let ghost sch_conns = schema.connections@;
        let mut node_id_to_graph_node_id: HashMap<i32, usize> = HashMap::new();

        let n_nodes = schema.nodes.len();
        let mut k: usize = 0;
        while k < n_nodes
            invariant
                self.wf(),
                n_nodes == schema.nodes@.len(),
                sch_nodes == schema.nodes@,
                sch_conns == schema.connections@,
                schema.connections == old(schema).connections,
                schema.nodes@.len() == old(schema).nodes@.len(),
                forall|i: int|
                    0 <= i < old(schema).nodes@.len() ==> (#[trigger] schema.nodes@[i]).0 == old(
                        schema,
                    ).nodes@[i].0 && same_but_pos(old(schema).nodes@[i].1, schema.nodes@[i].1),
                0 <= k <= n_nodes,
                base == old(self).graph.nodes@.len(),
                self.graph.nodes@.len() == base + k,
                self.node_positions@.len() == old(self).node_positions@.len() + k,
                self.node_order@.len() == old(self).node_order@.len() + k,
                imported_nodes(self.graph, sch_nodes, base, k as int),
                spec_first_unknown_from(sch_nodes, 0) == spec_first_unknown_from(
                    sch_nodes,
                    k as int,
                ),
                forall|j: int|
                    0 <= j < old(self).node_positions@.len() ==> self.node_positions@[j] == old(
                        self,
                    ).node_positions@[j],
                forall|j: int|
                    0 <= j < k ==> self.node_positions@[old(self).node_positions@.len() + j] == (
                    #[trigger] sch_nodes[j]).1.position,
                forall|j: int|
                    0 <= j < old(self).node_order@.len() ==> self.node_order@[j] == old(
                        self,
                    ).node_order@[j],
                forall|j: int|
                    0 <= j < k ==> #[trigger] self.node_order@[old(self).node_order@.len() + j]
                        == base + j,
                forall|id: i32|
                    (#[trigger] node_id_to_graph_node_id@.contains_key(id)) <==> spec_rfind_node(
                        sch_nodes.take(k as int),
                        id,
                    ) is Some,
                forall|id: i32|
                    node_id_to_graph_node_id@.contains_key(id) ==> node_id_to_graph_node_id@[id]
                        == base + spec_rfind_node(sch_nodes.take(k as int), id)->Some_0,
            decreases n_nodes - k,
        {
            let ghost g_loop = self.graph;
            let template = match schema.nodes[k].1.try_template() {
                Some(t) => t,
                None => {
                    proof {
                        assert(!spec_template_known(sch_nodes[k as int].1.name@));
                        assert(!spec_import_ok(*schema));
                        assert(spec_first_unknown_from(sch_nodes, k as int) == Some(k as int));
                        assert(spec_imported_count(
                            Err::<(), ImportError>(ImportError::UnknownNodeKind),
                            *schema,
                        ) == k as int);
                        assert(imported_prefix(*old(self), *self, sch_nodes, k as int));
                    }
                    return Err(ImportError::UnknownNodeKind);
                },
            };
            let label = schema.nodes[k].1.name.clone();
            let data = MyNodeData { template: template.clone() };
            let gid = self.graph.add_node(label, data);
            template.build_node(&mut self.graph, gid);
            let pos = schema.nodes[k].1.get_pos();
            self.node_positions.push(pos);
            self.node_order.push(gid);
            node_id_to_graph_node_id.insert(schema.nodes[k].0, gid);
            proof {
                let sn = sch_nodes[k as int].1;
                let t2 = self.graph.nodes@[base + k].user_data.template;
                lemma_template_matches_equiv(sn, template, t2);
                lemma_template_port_names(sn, template);
                lemma_equiv_ports(template, t2);
                assert(imported_node_at(self.graph, sch_nodes, base, k as int));
                assert forall|j: int| 0 <= j < k + 1 implies imported_node_at(
                    self.graph,
                    sch_nodes,
                    base,
                    j,
                ) by {
                    if j < k as int {
                        assert(imported_node_at(g_loop, sch_nodes, base, j));
                        assert(self.graph.nodes@[base + j] == g_loop.nodes@[base + j]);
                        assert forall|p: int|
                            0 <= p < g_loop.nodes@[base + j].inputs@.len() implies self.graph.inputs@[(
                            #[trigger] g_loop.nodes@[base + j].inputs@[p]).1 as int]
                            == g_loop.inputs@[g_loop.nodes@[base + j].inputs@[p].1 as int] by {}
                        assert forall|p: int|
                            0 <= p < g_loop.nodes@[base + j].outputs@.len() implies self.graph.outputs@[(
                            #[trigger] g_loop.nodes@[base + j].outputs@[p]).1 as int]
                            == g_loop.outputs@[g_loop.nodes@[base + j].outputs@[p].1 as int] by {}
                    }
                }
                assert(imported_nodes(self.graph, sch_nodes, base, k + 1 as int));
                assert(sch_nodes.take(k + 1 as int).drop_last() =~= sch_nodes.take(k as int));
                assert(sch_nodes.take(k + 1 as int).last() == sch_nodes[k as int]);
                assert(spec_template_known(sn.name@));
                assert(spec_first_unknown_from(sch_nodes, k as int) == spec_first_unknown_from(
                    sch_nodes,
                    k + 1 as int,
                ));
            }
            k += 1;
        }
        proof {
            assert(sch_nodes.take(n_nodes as int) =~= sch_nodes);
            assert forall|j: int| 0 <= j < n_nodes implies spec_template_known(
                (#[trigger] sch_nodes[j]).1.name@,
            ) by {
                assert(imported_node_at(self.graph, sch_nodes, base, j));
            }
            assert(spec_first_unknown_from(sch_nodes, n_nodes as int) is None);
            assert(spec_first_unknown_from(sch_nodes, 0) is None);
        }

        let n_conns = schema.connections.len();
        let mut ci: usize = 0;
        while ci < n_conns
            invariant
                self.wf(),
                n_conns == schema.connections@.len(),
                sch_nodes == schema.nodes@,
                sch_conns == schema.connections@,
                n_nodes == schema.nodes@.len(),
                schema.connections == old(schema).connections,
                schema.nodes@.len() == old(schema).nodes@.len(),
                forall|i: int|
                    0 <= i < old(schema).nodes@.len() ==> (#[trigger] schema.nodes@[i]).0 == old(
                        schema,
                    ).nodes@[i].0 && same_but_pos(old(schema).nodes@[i].1, schema.nodes@[i].1),
                0 <= ci <= n_conns,
                base == old(self).graph.nodes@.len(),
                self.graph.nodes@.len() == base + n_nodes,
                self.node_positions@.len() == old(self).node_positions@.len() + n_nodes,
                self.node_order@.len() == old(self).node_order@.len() + n_nodes,
                imported_nodes(self.graph, sch_nodes, base, n_nodes as int),
                spec_first_unknown_from(sch_nodes, 0) is None,
                spec_first_conn_error_from(sch_nodes, sch_conns, 0) == spec_first_conn_error_from(
                    sch_nodes,
                    sch_conns,
                    ci as int,
                ),
                forall|j: int|
                    0 <= j < old(self).node_positions@.len() ==> self.node_positions@[j] == old(
                        self,
                    ).node_positions@[j],
                forall|j: int|
                    0 <= j < n_nodes ==> self.node_positions@[old(self).node_positions@.len() + j]
                        == (#[trigger] sch_nodes[j]).1.position,
                forall|j: int|
                    0 <= j < old(self).node_order@.len() ==> self.node_order@[j] == old(
                        self,
                    ).node_order@[j],
                forall|j: int|
                    0 <= j < n_nodes ==> #[trigger] self.node_order@[old(self).node_order@.len()
                        + j] == base + j,
                forall|id: i32|
                    (#[trigger] node_id_to_graph_node_id@.contains_key(id)) <==> spec_rfind_node(
                        sch_nodes,
                        id,
                    ) is Some,
                forall|id: i32|
                    node_id_to_graph_node_id@.contains_key(id) ==> node_id_to_graph_node_id@[id]
                        == base + spec_rfind_node(sch_nodes, id)->Some_0,
                forall|j: int|
                    0 <= j < n_nodes ==> spec_template_known((#[trigger] sch_nodes[j]).1.name@),
                forall|c: int|
                    0 <= c < ci ==> spec_conn_ok(sch_nodes, #[trigger] sch_conns[c]),
                forall|c: int|
                    0 <= c < ci ==> conn_wired(
                        self.graph,
                        sch_nodes,
                        base,
                        sch_conns,
                        c,
                        ci as int,
                    ),
            decreases n_conns - ci,
        {
            let source_id = schema.connections[ci].source_node;
            let dest_id = schema.connections[ci].dest_node;
            let source_gid = match node_id_to_graph_node_id.get(&source_id) {
                Some(v) => *v,
                None => {
                    proof {
                        let c = sch_conns[ci as int];
                        assert(!(spec_rfind_node(sch_nodes, source_id) is Some));
                        assert(spec_conn_error(sch_nodes, c) == Some(ImportError::UnknownNodeId));
                        assert(spec_first_conn_error_from(sch_nodes, sch_conns, ci as int) == Some(
                            ImportError::UnknownNodeId,
                        ));
                        assert(!spec_conn_ok(sch_nodes, c));
                        assert(!spec_import_ok(*schema));
                        assert(spec_import_error(*schema) == Some(ImportError::UnknownNodeId));
                        assert(imported_prefix(*old(self), *self, sch_nodes, n_nodes as int));
                    }
                    return Err(ImportError::UnknownNodeId);
                },
            };
            let dest_gid = match node_id_to_graph_node_id.get(&dest_id) {
                Some(v) => *v,
                None => {
                    proof {
                        let c = sch_conns[ci as int];
                        assert(spec_rfind_node(sch_nodes, source_id) is Some);
                        assert(!(spec_rfind_node(sch_nodes, dest_id) is Some));
                        assert(spec_conn_error(sch_nodes, c) == Some(ImportError::UnknownNodeId));
                        assert(spec_first_conn_error_from(sch_nodes, sch_conns, ci as int) == Some(
                            ImportError::UnknownNodeId,
                        ));
                        assert(!spec_conn_ok(sch_nodes, c));
                        assert(!spec_import_ok(*schema));
                        assert(spec_import_error(*schema) == Some(ImportError::UnknownNodeId));
                        assert(imported_prefix(*old(self), *self, sch_nodes, n_nodes as int));
                    }
                    return Err(ImportError::UnknownNodeId);
                },
            };
            proof {
                lemma_rfind_node_in_range(sch_nodes, source_id);
                lemma_rfind_node_in_range(sch_nodes, dest_id);
            }
            let source_node_output = match self.graph.nodes[source_gid].get_output(
                schema.connections[ci].source_node_output.as_str(),
            ) {
                Ok(o) => o,
                Err(_) => {
                    proof {
                        let c = sch_conns[ci as int];
                        let sj = spec_rfind_node(sch_nodes, source_id)->Some_0;
                        let souts = self.graph.nodes@[base + sj].outputs@;
                        lemma_find_port_iff(souts, c.source_node_output@);
                        assert(imported_node_at(self.graph, sch_nodes, base, sj));
                        assert forall|p: int|
                            0 <= p < spec_schema_out_names(sch_nodes[sj].1).len() implies
                            spec_schema_out_names(sch_nodes[sj].1)[p]
                                != c.source_node_output@ by {
                            assert(souts[p].0@ == spec_schema_out_names(sch_nodes[sj].1)[p]);
                        }
                        assert(spec_conn_error(sch_nodes, c) == Some(ImportError::NoSuchParameter));
                        assert(spec_first_conn_error_from(sch_nodes, sch_conns, ci as int) == Some(
                            ImportError::NoSuchParameter,
                        ));
                        assert(!spec_conn_ok(sch_nodes, c));
                        assert(!spec_import_ok(*schema));
                        assert(spec_import_error(*schema) == Some(ImportError::NoSuchParameter));
                        assert(imported_prefix(*old(self), *self, sch_nodes, n_nodes as int));
                    }
                    return Err(ImportError::NoSuchParameter);
                },
            };
            let dest_node_input = match self.graph.nodes[dest_gid].get_input(
                schema.connections[ci].dest_node_input.as_str(),
            ) {
                Ok(i) => i,
                Err(_) => {
                    proof {
                        let c = sch_conns[ci as int];
                        let sj = spec_rfind_node(sch_nodes, source_id)->Some_0;
                        let dj = spec_rfind_node(sch_nodes, dest_id)->Some_0;
                        let souts = self.graph.nodes@[base + sj].outputs@;
                        let dins = self.graph.nodes@[base + dj].inputs@;
                        lemma_find_port_iff(souts, c.source_node_output@);
                        lemma_find_port_iff(dins, c.dest_node_input@);
                        assert(imported_node_at(self.graph, sch_nodes, base, sj));
                        assert(imported_node_at(self.graph, sch_nodes, base, dj));
                        let oj = choose|j: int|
                            0 <= j < souts.len() && (#[trigger] souts[j]).0@
                                == c.source_node_output@;
                        assert(spec_schema_out_names(sch_nodes[sj].1)[oj] == c.source_node_output@);
                        assert forall|p: int|
                            0 <= p < spec_schema_in_names(sch_nodes[dj].1).len() implies
                            spec_schema_in_names(sch_nodes[dj].1)[p] != c.dest_node_input@ by {
                            assert(dins[p].0@ == spec_schema_in_names(sch_nodes[dj].1)[p]);
                        }
                        assert(spec_conn_error(sch_nodes, c) == Some(ImportError::NoSuchParameter));
                        assert(spec_first_conn_error_from(sch_nodes, sch_conns, ci as int) == Some(
                            ImportError::NoSuchParameter,
                        ));
                        assert(!spec_conn_ok(sch_nodes, c));
                        assert(!spec_import_ok(*schema));
                        assert(spec_import_error(*schema) == Some(ImportError::NoSuchParameter));
                        assert(imported_prefix(*old(self), *self, sch_nodes, n_nodes as int));
                    }
                    return Err(ImportError::NoSuchParameter);
                },
            };
            proof {
                let sj = spec_rfind_node(sch_nodes, source_id)->Some_0;
                let dj = spec_rfind_node(sch_nodes, dest_id)->Some_0;
                lemma_find_port_in_list(
                    self.graph.nodes@[base + sj].outputs@,
                    sch_conns[ci as int].source_node_output@,
                );
                lemma_find_port_in_list(
                    self.graph.nodes@[base + dj].inputs@,
                    sch_conns[ci as int].dest_node_input@,
                );
                lemma_find_port_iff(
                    self.graph.nodes@[base + sj].outputs@,
                    sch_conns[ci as int].source_node_output@,
                );
                lemma_find_port_iff(
                    self.graph.nodes@[base + dj].inputs@,
                    sch_conns[ci as int].dest_node_input@,
                );
            }
            let ghost g_conn = self.graph;
            self.graph.add_connection(source_node_output, dest_node_input);
            proof {
                let c = sch_conns[ci as int];
                let sj = spec_rfind_node(sch_nodes, source_id)->Some_0;
                let dj = spec_rfind_node(sch_nodes, dest_id)->Some_0;
                let souts = g_conn.nodes@[base + sj].outputs@;
                let dins = g_conn.nodes@[base + dj].inputs@;
                assert(self.graph.nodes@ == g_conn.nodes@);
                assert(self.graph.inputs@ == g_conn.inputs@);
                assert(self.graph.outputs@ == g_conn.outputs@);
                assert(imported_node_at(g_conn, sch_nodes, base, sj));
                assert(imported_node_at(g_conn, sch_nodes, base, dj));
                let oj = choose|j: int|
                    0 <= j < souts.len() && (#[trigger] souts[j]).0@ == c.source_node_output@;
                assert(spec_schema_out_names(sch_nodes[sj].1)[oj] == c.source_node_output@);
                let ij = choose|j: int|
                    0 <= j < dins.len() && (#[trigger] dins[j]).0@ == c.dest_node_input@;
                assert(spec_schema_in_names(sch_nodes[dj].1)[ij] == c.dest_node_input@);
                assert(spec_conn_error(sch_nodes, c) is None);
                assert(spec_conn_ok(sch_nodes, c));
                assert(spec_first_conn_error_from(sch_nodes, sch_conns, ci as int)
                    == spec_first_conn_error_from(sch_nodes, sch_conns, ci + 1 as int));
                // The two graphs resolve every connection to the same ports.
                assert forall|c2: int| 0 <= c2 < n_conns implies spec_conn_input(
                    self.graph,
                    sch_nodes,
                    base,
                    #[trigger] sch_conns[c2],
                ) == spec_conn_input(g_conn, sch_nodes, base, sch_conns[c2])
                    && spec_conn_output(self.graph, sch_nodes, base, sch_conns[c2])
                    == spec_conn_output(g_conn, sch_nodes, base, sch_conns[c2]) by {
                    if spec_rfind_node(sch_nodes, sch_conns[c2].dest_node) is Some {
                        lemma_rfind_node_in_range(sch_nodes, sch_conns[c2].dest_node);
                    }
                    if spec_rfind_node(sch_nodes, sch_conns[c2].source_node) is Some {
                        lemma_rfind_node_in_range(sch_nodes, sch_conns[c2].source_node);
                    }
                }
                assert(spec_conn_input(self.graph, sch_nodes, base, c) == Some(dest_node_input));
                assert(spec_conn_output(self.graph, sch_nodes, base, c) == Some(
                    source_node_output,
                ));
                assert(self.graph.spec_connection(dest_node_input) == Some(source_node_output));
                assert(conn_wired(self.graph, sch_nodes, base, sch_conns, ci as int, ci + 1 as int));
                assert forall|cc: int| 0 <= cc < ci + 1 implies #[trigger] conn_wired(
                    self.graph,
                    sch_nodes,
                    base,
                    sch_conns,
                    cc,
                    ci + 1 as int,
                ) by {
                    if cc < ci as int {
                        assert(conn_wired(g_conn, sch_nodes, base, sch_conns, cc, ci as int));
                        let cold = sch_conns[cc];
                        let iid = spec_conn_input(g_conn, sch_nodes, base, cold)->Some_0;
                        if iid == dest_node_input {
                            assert(spec_conn_input(self.graph, sch_nodes, base, sch_conns[ci as int])
                                == Some(iid));
                            assert(self.graph.spec_connection(iid) is Some);
                        } else {
                            assert(self.graph.spec_connection(iid) == g_conn.spec_connection(iid));
                            if exists|c2: int|
                                cc < c2 < ci + 1 && spec_conn_input(
                                    self.graph,
                                    sch_nodes,
                                    base,
                                    #[trigger] sch_conns[c2],
                                ) == Some(iid) {
                                let c2 = choose|c2: int|
                                    cc < c2 < ci + 1 && spec_conn_input(
                                        self.graph,
                                        sch_nodes,
                                        base,
                                        #[trigger] sch_conns[c2],
                                    ) == Some(iid);
                                assert(c2 != ci as int);
                                assert(spec_conn_input(g_conn, sch_nodes, base, sch_conns[c2])
                                    == Some(iid));
                                assert(g_conn.spec_connection(iid) is Some);
                            } else {
                                assert(!exists|c2: int|
                                    cc < c2 < ci && spec_conn_input(
                                        g_conn,
                                        sch_nodes,
                                        base,
                                        #[trigger] sch_conns[c2],
                                    ) == Some(iid)) by {
                                    if exists|c2: int|
                                        cc < c2 < ci && spec_conn_input(
                                            g_conn,
                                            sch_nodes,
                                            base,
                                            #[trigger] sch_conns[c2],
                                        ) == Some(iid) {
                                        let c2 = choose|c2: int|
                                            cc < c2 < ci && spec_conn_input(
                                                g_conn,
                                                sch_nodes,
                                                base,
                                                #[trigger] sch_conns[c2],
                                            ) == Some(iid);
                                        assert(spec_conn_input(
                                            self.graph,
                                            sch_nodes,
                                            base,
                                            sch_conns[c2],
                                        ) == Some(iid));
                                    }
                                }
                                assert(g_conn.spec_connection(iid) == Some(
                                    spec_conn_output(g_conn, sch_nodes, base, cold)->Some_0,
                                ));
                            }
                        }
                    }
                }
                assert forall|j: int| 0 <= j < n_nodes as int implies imported_node_at(
                    self.graph,
                    sch_nodes,
                    base,
                    j,
                ) by {
                    assert(imported_node_at(g_conn, sch_nodes, base, j));
                }
            }
            ci += 1;
        }
        proof {
            assert(spec_first_conn_error_from(sch_nodes, sch_conns, n_conns as int) is None);
            assert(spec_import_error(*schema) is None);
            assert(imported_prefix(*old(self), *self, sch_nodes, n_nodes as int));
        }
        Ok(())
    }
}




/// A side effect reported by the node widgets: marking a node active, or
/// clearing the active mark.
#[derive(Clone, Copy, Debug, PartialEq, Eq, Structural)]
pub enum MyResponse {
    SetActiveNode(usize),
    ClearActiveNode,
}

/// The editor's global state: which node, if any, is active. The active
/// node is the one whose value the editor evaluates and shows each frame.
pub struct MyGraphState {
    pub active_node: Option<usize>,
}

impl Default for MyGraphState {
    fn default() -> (r: Self)
        ensures
            r.active_node is None,
    {
        MyGraphState { active_node: None }
    }
}

impl MyGraphState {
    /// Whether the node is the active one: the node widgets draw a
    /// highlighted button on it, and the editor shows its value.
    pub fn is_active(&self, node_id: usize) -> (r: bool)
        ensures
            r == (self.active_node == Some(node_id)),
    {
        match self.active_node {
            Some(active) => active == node_id,
            None => false,
        }
    }

    /// Applies one widget response to the state.
    pub fn apply(&mut self, response: MyResponse)
        ensures
            final(self).active_node == match response {
                MyResponse::SetActiveNode(node) => Some(node),
                MyResponse::ClearActiveNode => None::<usize>,
            },
    {
        match response {
            MyResponse::SetActiveNode(node) => self.active_node = Some(node),
            MyResponse::ClearActiveNode => self.active_node = None,
        }
    }
}

/// The whole application document: the graph being edited and the editor's
/// global state. The surrounding shell owns windowing and persistence and
/// hands both in from outside.
pub struct NodeGraphExample {
    pub state: EditorState,
    pub user_state: MyGraphState,
}

impl NodeGraphExample {
    /// A fresh document with an empty graph and no active node.
    pub fn new() -> (r: NodeGraphExample)
        ensures
            r.state.wf(),
            r.state.graph.nodes@.len() == 0,
            r.user_state.active_node is None,
    {
        NodeGraphExample { state: EditorState::new(), user_state: MyGraphState { active_node: None } }
    }
}

} // verus!
