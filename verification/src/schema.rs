use vstd::prelude::*;

use std::collections::HashMap;

use crate::template::MyNodeTemplate;
use crate::value::DepthaiNode;

verus! {

broadcast use vstd::std_specs::hash::group_hash_axioms;

/// Whether an io entry of a schema node is an output or an input.
#[derive(PartialEq, Eq, Structural, Clone, Copy, Debug)]
pub enum IOKind {
    Output,
    Input,
}

impl IOKind {
    /// The numeric code the schema dump uses for this kind: outputs are
    /// written as zero and inputs as one.
    pub open spec fn spec_code(self) -> i32 {
        match self {
            IOKind::Output => 0,
            IOKind::Input => 1,
        }
    }

    /// Reads the numeric code of this kind.
    pub fn code(&self) -> (r: i32)
        ensures
            r == self.spec_code(),
    {
        match self {
            IOKind::Output => 0,
            IOKind::Input => 1,
        }
    }
}

/// One io entry of a schema node.
pub struct IOInfo {
    pub blocking: bool,
    pub group: String,
    pub id: i32,
    pub name: String,
    pub queue_size: i32,
    pub kind: i32,
    pub wait_for_message: bool,
}

/// A node of a schema dump, together with the position the layout pass
/// assigns it.
pub struct Node {
    pub id: i32,
    pub io_info: Vec<((String, String), IOInfo)>,
    pub name: String,
    pub properties: Vec<i32>,
    /// Where the layout pass has placed this node.
    pub position: (i64, i64),
}

/// A connection of a schema dump: an output of one node wired to an input of
/// another.
pub struct Connection {
    pub source_node: i32,
    pub source_node_output: String,
    pub dest_node: i32,
    pub dest_node_input: String,
    pub dest_node_input_group: String,
}

/// A schema dump: nodes listed with their ids, and the connections between
/// them.
pub struct Schema {
    pub nodes: Vec<(i32, Node)>,
    pub connections: Vec<Connection>,
}

/// An io entry counts as a script input when it sits in the `io` group and
/// its kind code is one (an input) or three.
pub open spec fn spec_is_script_input(e: ((String, String), IOInfo)) -> bool {
    &&& e.0.0@ == "io"@
    &&& (e.1.kind == 1 || e.1.kind == 3)
}

/// An io entry counts as a script output when it sits in the `io` group and
/// is not a script input.
pub open spec fn spec_is_script_output(e: ((String, String), IOInfo)) -> bool {
    &&& e.0.0@ == "io"@
    &&& !(e.1.kind == 1 || e.1.kind == 3)
}

/// The names of the script inputs among `io`, in order.
pub open spec fn spec_script_inputs(io: Seq<((String, String), IOInfo)>) -> Seq<Seq<char>>
    decreases io.len(),
{
    if io.len() == 0 {
        Seq::empty()
    } else {
        let rest = spec_script_inputs(io.drop_first());
        if spec_is_script_input(io[0]) {
            seq![io[0].1.name@] + rest
        } else {
            rest
        }
    }
}

/// The names of the script outputs among `io`, in order.
pub open spec fn spec_script_outputs(io: Seq<((String, String), IOInfo)>) -> Seq<Seq<char>>
    decreases io.len(),
{
    if io.len() == 0 {
        Seq::empty()
    } else {
        let rest = spec_script_outputs(io.drop_first());
        if spec_is_script_output(io[0]) {
            seq![io[0].1.name@] + rest
        } else {
            rest
        }
    }
}

/// Appending one io entry appends its name to the script inputs exactly when
/// it is one.
proof fn lemma_script_inputs_push(io: Seq<((String, String), IOInfo)>, e: ((String, String), IOInfo))
    ensures
        spec_script_inputs(io.push(e)) == spec_script_inputs(io) + (if spec_is_script_input(e) {
            seq![e.1.name@]
        } else {
            Seq::<Seq<char>>::empty()
        }),
    decreases io.len(),
{
    let tail = if spec_is_script_input(e) {
        seq![e.1.name@]
    } else {
        Seq::<Seq<char>>::empty()
    };
    if io.len() == 0 {
        assert(io.push(e)[0] == e);
        assert(io.push(e).drop_first() =~= io);
        assert(spec_script_inputs(io.push(e)) =~= spec_script_inputs(io) + tail);
    } else {
        assert(io.push(e)[0] == io[0]);
        assert(io.push(e).drop_first() =~= io.drop_first().push(e));
        lemma_script_inputs_push(io.drop_first(), e);
        assert(spec_script_inputs(io.push(e)) =~= spec_script_inputs(io) + tail);
    }
}

/// Appending one io entry appends its name to the script outputs exactly
/// when it is one.
proof fn lemma_script_outputs_push(
    io: Seq<((String, String), IOInfo)>,
    e: ((String, String), IOInfo),
)
    ensures
        spec_script_outputs(io.push(e)) == spec_script_outputs(io) + (if spec_is_script_output(e) {
            seq![e.1.name@]
        } else {
            Seq::<Seq<char>>::empty()
        }),
    decreases io.len(),
{
    let tail = if spec_is_script_output(e) {
        seq![e.1.name@]
    } else {
        Seq::<Seq<char>>::empty()
    };
    if io.len() == 0 {
        assert(io.push(e)[0] == e);
        assert(io.push(e).drop_first() =~= io);
        assert(spec_script_outputs(io.push(e)) =~= spec_script_outputs(io) + tail);
    } else {
        assert(io.push(e)[0] == io[0]);
        assert(io.push(e).drop_first() =~= io.drop_first().push(e));
        lemma_script_outputs_push(io.drop_first(), e);
        assert(spec_script_outputs(io.push(e)) =~= spec_script_outputs(io) + tail);
    }
}

/// The schema node names that map to a template.
pub open spec fn spec_template_known(name: Seq<char>) -> bool {
    ||| name == "ColorCamera"@
    ||| name == "MonoCamera"@
    ||| name == "ImageManip"@
    ||| name == "VideoEncoder"@
    ||| name == "NeuralNetwork"@
    ||| name == "DetectionNetwork"@
    ||| name == "MobileNetDetectionNetwork"@
    ||| name == "MobileNetSpatialDetectionNetwork"@
    ||| name == "YoloDetectionNetwork"@
    ||| name == "YoloSpatialDetectionNetwork"@
    ||| name == "SPIIn"@
    ||| name == "SPIOut"@
    ||| name == "XLinkIn"@
    ||| name == "XLinkOut"@
    ||| name == "Script"@
    ||| name == "StereoDepth"@
    ||| name == "SpatialLocationCalculator"@
    ||| name == "EdgeDetector"@
    ||| name == "FeaureTracker"@
    ||| name == "ObjectTracker"@
    ||| name == "IMU"@
}

/// The template a schema node stands for. Script nodes carry the io names
/// read from their io table; every other known name is a fixed template.
pub open spec fn spec_template_matches(node: Node, t: MyNodeTemplate) -> bool {
    if node.name@ == "ColorCamera"@ {
        t == MyNodeTemplate::CreateColorCamera
    } else if node.name@ == "MonoCamera"@ {
        t == MyNodeTemplate::CreateMonoCamera
    } else if node.name@ == "ImageManip"@ {
        t == MyNodeTemplate::CreateImageManip
    } else if node.name@ == "VideoEncoder"@ {
        t == MyNodeTemplate::CreateVideoEncoder
    } else if node.name@ == "NeuralNetwork"@ {
        t == MyNodeTemplate::CreateNeuralNetwork
    } else if node.name@ == "DetectionNetwork"@ {
        t == MyNodeTemplate::CreateDetectionNetwork
    } else if node.name@ == "MobileNetDetectionNetwork"@ {
        t == MyNodeTemplate::CreateMobileNetDetectionNetwork
    } else if node.name@ == "MobileNetSpatialDetectionNetwork"@ {
        t == MyNodeTemplate::CreateMobileNetSpatialDetectionNetwork
    } else if node.name@ == "YoloDetectionNetwork"@ {
        t == MyNodeTemplate::CreateYoloDetectionNetwork
    } else if node.name@ == "YoloSpatialDetectionNetwork"@ {
        t == MyNodeTemplate::CreateYoloSpatialDetectionNetwork
    } else if node.name@ == "SPIIn"@ {
        t == MyNodeTemplate::CreateSPIIn
    } else if node.name@ == "SPIOut"@ {
        t == MyNodeTemplate::CreateSPIOut
    } else if node.name@ == "XLinkIn"@ {
        t == MyNodeTemplate::CreateXLinkIn
    } else if node.name@ == "XLinkOut"@ {
        t == MyNodeTemplate::CreateXLinkOut
    } else if node.name@ == "Script"@ {
        match t {
            MyNodeTemplate::CreateScript(ins, outs) => {
                &&& ins.deep_view() == spec_script_inputs(node.io_info@)
                &&& outs.deep_view() == spec_script_outputs(node.io_info@)
            },
            _ => false,
        }
    } else if node.name@ == "StereoDepth"@ {
        t == MyNodeTemplate::CreateStereoDepth
    } else if node.name@ == "SpatialLocationCalculator"@ {
        t == MyNodeTemplate::CreateSpatialLocationCalculator
    } else if node.name@ == "EdgeDetector"@ {
        t == MyNodeTemplate::CreateEdgeDetector
    } else if node.name@ == "FeaureTracker"@ {
        t == MyNodeTemplate::CreateFeaureTracker
    } else if node.name@ == "ObjectTracker"@ {
        t == MyNodeTemplate::CreateObjectTracker
    } else if node.name@ == "IMU"@ {
        t == MyNodeTemplate::CreateIMU
    } else {
        false
    }
}

/// Compares a stored string against a literal by characters.
fn str_is(s: &String, lit: &str) -> (r: bool)
    ensures
        r == (s@ == lit@),
{
    s.eq(&lit.to_owned())
}

impl Node {
    /// A schema node, placed at the origin until the layout pass moves it.
    pub fn new(id: i32, io_info: Vec<((String, String), IOInfo)>, name: String, properties: Vec<
        i32,
    >) -> (n: Node)
        ensures
            n.id == id,
            n.io_info == io_info,
            n.name == name,
            n.properties == properties,
            n.spec_get_pos() == (0i64, 0i64),
    {
        Node { id, io_info, name, properties, position: (0, 0) }
    }

    /// Where the layout pass has placed this node.
    pub open spec fn spec_get_pos(self) -> (i64, i64) {
        self.position
    }

    /// Moves this node, leaving everything else as it was.
    pub fn set_pos(&mut self, x: i64, y: i64)
        ensures
            final(self).spec_get_pos() == (x, y),
            final(self).id == old(self).id,
            final(self).io_info == old(self).io_info,
            final(self).name == old(self).name,
            final(self).properties == old(self).properties,
    {
        self.position = (x, y);
    }

    /// Reads this node's position.
    pub fn get_pos(&self) -> (r: (i64, i64))
        ensures
            r == self.spec_get_pos(),
    {
        self.position
    }

    /// The template this schema node stands for, if its name is known.
    pub fn try_template(&self) -> (r: Option<MyNodeTemplate>)
        ensures
            match r {
                Some(t) => spec_template_known(self.name@) && spec_template_matches(*self, t),
                None => !spec_template_known(self.name@),
            },
    {
        if str_is(&self.name, "ColorCamera") {
            Some(MyNodeTemplate::CreateColorCamera)
        } else if str_is(&self.name, "MonoCamera") {
            Some(MyNodeTemplate::CreateMonoCamera)
        } else if str_is(&self.name, "ImageManip") {
            Some(MyNodeTemplate::CreateImageManip)
        } else if str_is(&self.name, "VideoEncoder") {
            Some(MyNodeTemplate::CreateVideoEncoder)
        } else if str_is(&self.name, "NeuralNetwork") {
            Some(MyNodeTemplate::CreateNeuralNetwork)
        } else if str_is(&self.name, "DetectionNetwork") {
            Some(MyNodeTemplate::CreateDetectionNetwork)
        } else if str_is(&self.name, "MobileNetDetectionNetwork") {
            Some(MyNodeTemplate::CreateMobileNetDetectionNetwork)
        } else if str_is(&self.name, "MobileNetSpatialDetectionNetwork") {
            Some(MyNodeTemplate::CreateMobileNetSpatialDetectionNetwork)
        } else if str_is(&self.name, "YoloDetectionNetwork") {
            Some(MyNodeTemplate::CreateYoloDetectionNetwork)
        } else if str_is(&self.name, "YoloSpatialDetectionNetwork") {
            Some(MyNodeTemplate::CreateYoloSpatialDetectionNetwork)
        } else if str_is(&self.name, "SPIIn") {
            Some(MyNodeTemplate::CreateSPIIn)
        } else if str_is(&self.name, "SPIOut") {
            Some(MyNodeTemplate::CreateSPIOut)
        } else if str_is(&self.name, "XLinkIn") {
            Some(MyNodeTemplate::CreateXLinkIn)
        } else if str_is(&self.name, "XLinkOut") {
            Some(MyNodeTemplate::CreateXLinkOut)
        } else if str_is(&self.name, "Script") {
            let mut input_names: Vec<String> = Vec::new();
            let mut output_names: Vec<String> = Vec::new();
            let n = self.io_info.len();
            let mut k: usize = 0;
            while k < n
                invariant
                    n == self.io_info.len(),
                    0 <= k <= n,
                    input_names.deep_view() == spec_script_inputs(self.io_info@.take(k as int)),
                    output_names.deep_view() == spec_script_outputs(self.io_info@.take(k as int)),
                decreases n - k,
            {
                let entry = &self.io_info[k];
                proof {
                    assert(self.io_info@.take(k + 1 as int) =~= self.io_info@.take(k as int).push(
                        self.io_info@[k as int],
                    ));
                    lemma_script_inputs_push(self.io_info@.take(k as int), self.io_info@[k as int]);
                    lemma_script_outputs_push(
                        self.io_info@.take(k as int),
                        self.io_info@[k as int],
                    );
                }
                if str_is(&entry.0.0, "io") {
                    if entry.1.kind == 1 || entry.1.kind == 3 {
                        let name = entry.1.name.clone();
                        input_names.push(name);
                        proof {
                            assert(input_names.deep_view() =~= spec_script_inputs(
                                self.io_info@.take(k + 1 as int),
                            ));
                            assert(output_names.deep_view() =~= spec_script_outputs(
                                self.io_info@.take(k + 1 as int),
                            ));
                        }
                    } else {
                        let name = entry.1.name.clone();
                        output_names.push(name);
                        proof {
                            assert(input_names.deep_view() =~= spec_script_inputs(
                                self.io_info@.take(k + 1 as int),
                            ));
                            assert(output_names.deep_view() =~= spec_script_outputs(
                                self.io_info@.take(k + 1 as int),
                            ));
                        }
                    }
                } else {
                    proof {
                        assert(input_names.deep_view() =~= spec_script_inputs(
                            self.io_info@.take(k + 1 as int),
                        ));
                        assert(output_names.deep_view() =~= spec_script_outputs(
                            self.io_info@.take(k + 1 as int),
                        ));
                    }
                }
                k += 1;
            }
            proof {
                assert(self.io_info@.take(n as int) =~= self.io_info@);
            }
            Some(MyNodeTemplate::CreateScript(input_names, output_names))
        } else if str_is(&self.name, "StereoDepth") {
            Some(MyNodeTemplate::CreateStereoDepth)
        } else if str_is(&self.name, "SpatialLocationCalculator") {
            Some(MyNodeTemplate::CreateSpatialLocationCalculator)
        } else if str_is(&self.name, "EdgeDetector") {
            Some(MyNodeTemplate::CreateEdgeDetector)
        } else if str_is(&self.name, "FeaureTracker") {
            Some(MyNodeTemplate::CreateFeaureTracker)
        } else if str_is(&self.name, "ObjectTracker") {
            Some(MyNodeTemplate::CreateObjectTracker)
        } else if str_is(&self.name, "IMU") {
            Some(MyNodeTemplate::CreateIMU)
        } else {
            None
        }
    }

    /// The template this schema node stands for. The caller must know the
    /// name is one of the recognised ones.
    pub fn template(&self) -> (t: MyNodeTemplate)
        requires
            spec_template_known(self.name@),
        ensures
            spec_template_matches(*self, t),
    {
        self.try_template().unwrap()
    }
}

/// Whether a connection touches the node with this id at either end.
pub open spec fn spec_touches(c: Connection, id: i32) -> bool {
    c.source_node == id || c.dest_node == id
}

/// The indices of the connections from `from` on that touch `id`.
pub open spec fn spec_matching_from(conns: Seq<Connection>, id: i32, from: int) -> Seq<usize>
    decreases conns.len() - from,
{
    if from < 0 || from >= conns.len() {
        Seq::empty()
    } else {
        let rest = spec_matching_from(conns, id, from + 1);
        if spec_touches(conns[from], id) {
            seq![from as usize] + rest
        } else {
            rest
        }
    }
}

/// The first index in `nodes` carrying this id, from `from` on.
pub open spec fn spec_find_node_from(nodes: Seq<(i32, Node)>, id: i32, from: int) -> Option<usize>
    decreases nodes.len() - from,
{
    if from < 0 || from >= nodes.len() {
        None
    } else if nodes[from].0 == id {
        Some(from as usize)
    } else {
        spec_find_node_from(nodes, id, from + 1)
    }
}

/// The indices of the nodes fed by outputs of the node with id `id`: one
/// entry per connection leaving it whose destination id is listed.
pub open spec fn spec_connected_to_outputs_from(
    conns: Seq<Connection>,
    nodes: Seq<(i32, Node)>,
    id: i32,
    from: int,
) -> Seq<usize>
    decreases conns.len() - from,
{
    if from < 0 || from >= conns.len() {
        Seq::empty()
    } else {
        let rest = spec_connected_to_outputs_from(conns, nodes, id, from + 1);
        if conns[from].source_node == id {
            match spec_find_node_from(nodes, conns[from].dest_node, 0) {
                Some(ix) => seq![ix] + rest,
                None => rest,
            }
        } else {
            rest
        }
    }
}

impl Schema {
    /// The index of the first listed node carrying `id`, if any.
    pub fn find_node_index(&self, id: i32) -> (r: Option<usize>)
        ensures
            r == spec_find_node_from(self.nodes@, id, 0),
    {
        let n = self.nodes.len();
        let mut k: usize = 0;
        while k < n
            invariant
                n == self.nodes.len(),
                0 <= k <= n,
                spec_find_node_from(self.nodes@, id, 0) == spec_find_node_from(
                    self.nodes@,
                    id,
                    k as int,
                ),
            decreases n - k,
        {
            if self.nodes[k].0 == id {
                return Some(k);
            }
            k += 1;
        }
        None
    }

    /// The indices of all connections that touch `node` at either end.
    pub fn all_connections(&self, node: &Node) -> (r: Vec<usize>)
        ensures
            r@ == spec_matching_from(self.connections@, node.id, 0),
    {
        let n = self.connections.len();
        let mut r: Vec<usize> = Vec::new();
        let mut k: usize = 0;
        while k < n
            invariant
                n == self.connections.len(),
                0 <= k <= n,
                spec_matching_from(self.connections@, node.id, 0) == r@ + spec_matching_from(
                    self.connections@,
                    node.id,
                    k as int,
                ),
            decreases n - k,
        {
            let c = &self.connections[k];
            if c.source_node == node.id || c.dest_node == node.id {
                r.push(k);
                proof {
                    assert(r@.drop_last() + (seq![k as usize] + spec_matching_from(
                        self.connections@,
                        node.id,
                        k + 1 as int,
                    )) =~= r@ + spec_matching_from(self.connections@, node.id, k + 1 as int));
                }
            }
            k += 1;
        }
        proof {
            assert(r@ + spec_matching_from(self.connections@, node.id, n as int) =~= r@);
        }
        r
    }

    /// The indices of the nodes reached by connections leaving `node`. A
    /// connection whose destination id is not listed contributes nothing:
    /// the dangling edge is skipped rather than refused.
    pub fn get_nodes_connected_to_outputs(&self, node: &Node) -> (r: Vec<usize>)
        ensures
            r@ == spec_connected_to_outputs_from(self.connections@, self.nodes@, node.id, 0),
    {
        let n = self.connections.len();
        let mut r: Vec<usize> = Vec::new();
        let mut k: usize = 0;
        while k < n
            invariant
                n == self.connections.len(),
                0 <= k <= n,
                spec_connected_to_outputs_from(self.connections@, self.nodes@, node.id, 0) == r@
                    + spec_connected_to_outputs_from(
                    self.connections@,
                    self.nodes@,
                    node.id,
                    k as int,
                ),
            decreases n - k,
        {
            let c = &self.connections[k];
            if c.source_node == node.id {
                match self.find_node_index(c.dest_node) {
                    Some(ix) => {
                        r.push(ix);
                        proof {
                            assert(r@.drop_last() + (seq![ix]
                                + spec_connected_to_outputs_from(
                                self.connections@,
                                self.nodes@,
                                node.id,
                                k + 1 as int,
                            )) =~= r@ + spec_connected_to_outputs_from(
                                self.connections@,
                                self.nodes@,
                                node.id,
                                k + 1 as int,
                            ));
                        }
                    },
                    None => {},
                }
            }
            k += 1;
        }
        proof {
            assert(r@ + spec_connected_to_outputs_from(
                self.connections@,
                self.nodes@,
                node.id,
                n as int,
            ) =~= r@);
        }
        r
    }
}


/// One rank map refines another: every ranked node stays ranked, and no rank
/// goes down.
pub open spec fn rank_map_grows(m0: Map<i32, i32>, m1: Map<i32, i32>) -> bool {
    &&& m0.dom().subset_of(m1.dom())
    &&& forall|k: i32| #[trigger] m0.dom().contains(k) ==> m1[k] >= m0[k]
}

/// Growing is transitive.
pub proof fn lemma_rank_map_grows_trans(m0: Map<i32, i32>, m1: Map<i32, i32>, m2: Map<i32, i32>)
    requires
        rank_map_grows(m0, m1),
        rank_map_grows(m1, m2),
    ensures
        rank_map_grows(m0, m2),
{
    assert forall|k: i32| #[trigger] m0.dom().contains(k) implies m2[k] >= m0[k] by {
        assert(m1.dom().contains(k));
    }
}

/// Every rank in the map is non-negative.
pub open spec fn nonneg_ranks(m: Map<i32, i32>) -> bool {
    forall|k: i32| #[trigger] m.dom().contains(k) ==> m[k] >= 0
}

/// Whether `v` lists `x`.
fn vec_contains_i32(v: &Vec<i32>, x: i32) -> (r: bool)
    ensures
        r == v@.contains(x),
{
    let n = v.len();
    let mut k: usize = 0;
    while k < n
        invariant
            n == v.len(),
            0 <= k <= n,
            forall|j: int| 0 <= j < k ==> v@[j] != x,
        decreases n - k,
    {
        if v[k] == x {
            return true;
        }
        k += 1;
    }
    false
}

/// The greater of two ranks.
fn max_i32(a: i32, b: i32) -> (r: i32)
    ensures
        r == if a >= b { a } else { b },
{
    if a >= b {
        a
    } else {
        b
    }
}

/// Adds within the representable range, pinning the result to the nearer
/// bound when the sum leaves it.
fn sat_add_i64(a: i64, b: i64) -> (r: i64)
    ensures
        r == spec_sat_add_i64(a, b),
{
    match a.checked_add(b) {
        Some(s) => s,
        None => if b >= 0 {
            i64::MAX
        } else {
            i64::MIN
        },
    }
}

/// Saturating addition.
pub open spec fn spec_sat_add_i64(a: i64, b: i64) -> i64 {
    if a + b > i64::MAX {
        i64::MAX
    } else if a + b < i64::MIN {
        i64::MIN
    } else {
        (a + b) as i64
    }
}

/// Half of a non-negative length.
fn half_nonneg(a: i64) -> (r: i64)
    requires
        a >= 0,
    ensures
        r == a / 2,
{
    (((a as u64) / 2) as i64)
}

/// `b` is `a` with at most its position changed.
pub open spec fn same_but_pos(a: Node, b: Node) -> bool {
    &&& a.id == b.id
    &&& a.io_info == b.io_info
    &&& a.name == b.name
    &&& a.properties == b.properties
}

/// The node names the layout pass starts ranking from.
pub open spec fn spec_is_start_name(name: Seq<char>) -> bool {
    ||| name == "ColorCamera"@
    ||| name == "XLinkIn"@
    ||| name == "MonoCamera"@
}

/// Whether the rank map places the node with this id: listed with a
/// non-negative rank.
pub open spec fn spec_ranked(m: Map<i32, i32>, id: i32) -> bool {
    m.contains_key(id) && m[id] >= 0
}

/// Whether node `i` sits on rank `r` under `m`.
pub open spec fn spec_on_rank(nodes: Seq<(i32, Node)>, m: Map<i32, i32>, i: int, r: int) -> bool {
    spec_ranked(m, nodes[i].0) && m[nodes[i].0] == r
}

/// Whether node `i` is the first in listing order with its rank.
pub open spec fn first_of_rank(nodes: Seq<(i32, Node)>, m: Map<i32, i32>, i: int) -> bool {
    forall|i2: int|
        0 <= i2 < i ==> !(spec_ranked(m, (#[trigger] nodes[i2]).0) && m[nodes[i2].0]
            == m[nodes[i].0])
}

/// `post` is `pre` with its nodes placed by the rank map `m`: a node of rank
/// `r` sits in the column at `150 * (r + 1)`; the first node of each rank
/// sits at the top, and within one rank the vertical positions strictly
/// increase in listing order (pinned to the upper bound once a running sum
/// saturates); nodes the map does not place keep their positions; nothing
/// else changes.
pub open spec fn placed_by_rank(pre: Schema, post: Schema, m: Map<i32, i32>) -> bool {
    let nodes = pre.nodes@;
    &&& post.connections == pre.connections
    &&& post.nodes@.len() == nodes.len()
    &&& forall|i: int|
        0 <= i < nodes.len() ==> (#[trigger] post.nodes@[i]).0 == nodes[i].0 && same_but_pos(
            nodes[i].1,
            post.nodes@[i].1,
        )
    &&& forall|i: int|
        0 <= i < nodes.len() && spec_ranked(m, (#[trigger] nodes[i]).0)
            ==> post.nodes@[i].1.position.0 == 150 * (m[nodes[i].0] + 1)
    &&& forall|i: int|
        0 <= i < nodes.len() && !spec_ranked(m, (#[trigger] nodes[i]).0)
            ==> post.nodes@[i].1.position == nodes[i].1.position
    &&& forall|i: int|
        0 <= i < nodes.len() && spec_ranked(m, (#[trigger] nodes[i]).0) && first_of_rank(
            nodes,
            m,
            i,
        ) ==> post.nodes@[i].1.position.1 == 0
    &&& forall|i1: int, i2: int|
        0 <= i1 < i2 < nodes.len() && spec_ranked(m, (#[trigger] nodes[i1]).0) && spec_ranked(
            m,
            (#[trigger] nodes[i2]).0,
        ) && m[nodes[i1].0] == m[nodes[i2].0] ==> post.nodes@[i1].1.position.1
            < post.nodes@[i2].1.position.1 || post.nodes@[i2].1.position.1 == i64::MAX
}

impl Schema {
    /// Every output io id of the node listed under `id` is ranked in `m`,
    /// whenever that node exists.
    pub open spec fn outputs_ranked(self, m: Map<i32, i32>, id: i32) -> bool {
        spec_find_node_from(self.nodes@, id, 0) matches Some(ix) ==> forall|e: int|
            0 <= e < self.nodes@[ix as int].1.io_info@.len() && (
            #[trigger] self.nodes@[ix as int].1.io_info@[e]).1.kind == 0 ==> m.dom().contains(
                self.nodes@[ix as int].1.io_info@[e].1.id,
            )
    }

    /// Walks the output io entries of the node with id `node` and raises the
    /// rank of every io id they list to one past this node's rank, recursing
    /// from each until the budget runs out. Ranks only accumulate: no entry
    /// disappears or decreases.
    pub fn update_node_rank(&self, node: i32, nodes_rank: &mut HashMap<i32, i32>, budget: usize)
        ensures
            rank_map_grows(old(nodes_rank)@, final(nodes_rank)@),
            spec_find_node_from(self.nodes@, node, 0) is None ==> final(nodes_rank)@ == old(
                nodes_rank,
            )@,
            self.outputs_ranked(final(nodes_rank)@, node),
            nonneg_ranks(old(nodes_rank)@) ==> nonneg_ranks(final(nodes_rank)@),
            nonneg_ranks(old(nodes_rank)@) ==> forall|x: i32|
                #[trigger] final(nodes_rank)@.dom().contains(x) && !old(
                    nodes_rank,
                )@.dom().contains(x) ==> final(nodes_rank)@[x] >= 1,
        decreases budget,
    {
        let total = self.nodes.len();
        let node_ix = match self.find_node_index(node) {
            None => {
                return ;
            },
            Some(ix) => ix,
        };
        proof {
            assert(self.nodes@.len() == total);
            lemma_find_node_from_in_range(self.nodes@, node, 0);
        }
        let mut connected: Vec<i32> = Vec::new();
        let io_len = self.nodes[node_ix].1.io_info.len();
        let mut k: usize = 0;
        while k < io_len
            invariant
                node_ix < self.nodes@.len(),
                io_len == self.nodes@[node_ix as int].1.io_info@.len(),
                0 <= k <= io_len,
                forall|e: int|
                    0 <= e < k && (#[trigger] self.nodes@[node_ix as int].1.io_info@[e]).1.kind
                        == 0 ==> connected@.contains(self.nodes@[node_ix as int].1.io_info@[e].1.id),
            decreases io_len - k,
        {
            let ghost conn_before = connected@;
            let entry = &self.nodes[node_ix].1.io_info[k];
            if entry.1.kind == IOKind::Output.code() {
                if !vec_contains_i32(&connected, entry.1.id) {
                    connected.push(entry.1.id);
                    proof {
                        assert forall|x: i32| conn_before.contains(x) implies connected@.contains(
                            x,
                        ) by {
                            let w = choose|w: int| 0 <= w < conn_before.len() && conn_before[w] == x;
                            assert(connected@[w] == x);
                        }
                        assert(connected@[connected@.len() - 1] == entry.1.id);
                    }
                }
            }
            k += 1;
        }
        let rank_base = match nodes_rank.get(&node) {
            Some(r) => *r,
            None => 0,
        };
        let rank = if rank_base == i32::MAX {
            rank_base
        } else {
            rank_base + 1
        };
        let n_conn = connected.len();
        let mut j: usize = 0;
        while j < n_conn
            invariant
                n_conn == connected.len(),
                0 <= j <= n_conn,
                rank_map_grows(old(nodes_rank)@, nodes_rank@),
                nonneg_ranks(old(nodes_rank)@) ==> rank >= 1,
                nonneg_ranks(old(nodes_rank)@) ==> nonneg_ranks(nodes_rank@),
                nonneg_ranks(old(nodes_rank)@) ==> forall|x: i32|
                    #[trigger] nodes_rank@.dom().contains(x) && !old(
                        nodes_rank,
                    )@.dom().contains(x) ==> nodes_rank@[x] >= 1,
                forall|j2: int|
                    0 <= j2 < j ==> nodes_rank@.dom().contains(#[trigger] connected@[j2]),
            decreases n_conn - j,
        {
            let ghost before = nodes_rank@;
            let n = connected[j];
            let new_rank = match nodes_rank.get(&n) {
                Some(nr) => max_i32(*nr, rank),
                None => rank,
            };
            nodes_rank.insert(n, new_rank);
            proof {
                lemma_rank_map_grows_trans(old(nodes_rank)@, before, nodes_rank@);
            }
            if budget > 0 {
                let ghost mid = nodes_rank@;
                self.update_node_rank(n, nodes_rank, budget - 1);
                proof {
                    lemma_rank_map_grows_trans(old(nodes_rank)@, mid, nodes_rank@);
                    if nonneg_ranks(old(nodes_rank)@) {
                        assert forall|x: i32|
                            #[trigger] nodes_rank@.dom().contains(x) && !old(
                                nodes_rank,
                            )@.dom().contains(x) implies nodes_rank@[x] >= 1 by {
                            if mid.dom().contains(x) {
                                assert(mid[x] >= 1);
                                assert(nodes_rank@[x] >= mid[x]);
                            }
                        }
                    }
                }
            }
            proof {
                assert forall|j2: int| 0 <= j2 < j + 1 implies nodes_rank@.dom().contains(
                    #[trigger] connected@[j2],
                ) by {
                    if j2 < j as int {
                        assert(before.dom().contains(connected@[j2]));
                    }
                }
            }
            j += 1;
        }
        proof {
            assert forall|e: int|
                0 <= e < self.nodes@[node_ix as int].1.io_info@.len() && (
                #[trigger] self.nodes@[node_ix as int].1.io_info@[e]).1.kind == 0 implies
                nodes_rank@.dom().contains(self.nodes@[node_ix as int].1.io_info@[e].1.id) by {
                let id = self.nodes@[node_ix as int].1.io_info@[e].1.id;
                assert(connected@.contains(id));
                let w = choose|w: int| 0 <= w < connected@.len() && connected@[w] == id;
                assert(nodes_rank@.dom().contains(connected@[w]));
            }
            assert(self.outputs_ranked(nodes_rank@, node));
        }
    }

    /// Ranks every node reachable from the given starting ids: each start
    /// gets rank zero, and ranks propagate through output io entries.
    pub fn compute_node_rank(&self, start_ids: &Vec<i32>) -> (r: HashMap<i32, i32>)
        ensures
            forall|j: int|
                0 <= j < start_ids@.len() ==> r@.dom().contains(#[trigger] start_ids@[j]),
            forall|j: int|
                0 <= j < start_ids@.len() ==> self.outputs_ranked(r@, #[trigger] start_ids@[j]),
            nonneg_ranks(r@),
            forall|x: i32|
                #[trigger] r@.dom().contains(x) && !start_ids@.contains(x) ==> r@[x] >= 1,
    {
        let budget = self.nodes.len();
        let mut nodes_rank: HashMap<i32, i32> = HashMap::new();
        let n = start_ids.len();
        let mut k: usize = 0;
        while k < n
            invariant
                n == start_ids.len(),
                0 <= k <= n,
                forall|j: int|
                    0 <= j < k ==> nodes_rank@.dom().contains(#[trigger] start_ids@[j]),
                forall|j: int|
                    0 <= j < k ==> self.outputs_ranked(nodes_rank@, #[trigger] start_ids@[j]),
                nonneg_ranks(nodes_rank@),
                forall|x: i32|
                    #[trigger] nodes_rank@.dom().contains(x) && !start_ids@.contains(x)
                        ==> nodes_rank@[x] >= 1,
            decreases n - k,
        {
            let ghost before = nodes_rank@;
            nodes_rank.insert(start_ids[k], 0);
            let ghost mid = nodes_rank@;
            proof {
                assert(start_ids@.contains(start_ids@[k as int]));
                assert forall|x: i32|
                    #[trigger] mid.dom().contains(x) && !start_ids@.contains(x) implies mid[x]
                        >= 1 by {
                    assert(before.dom().contains(x) && before[x] == mid[x]);
                }
            }
            self.update_node_rank(start_ids[k], &mut nodes_rank, budget);
            proof {
                assert forall|x: i32|
                    #[trigger] nodes_rank@.dom().contains(x) && !start_ids@.contains(x) implies
                    nodes_rank@[x] >= 1 by {
                    if mid.dom().contains(x) {
                        assert(mid[x] >= 1);
                        assert(nodes_rank@[x] >= mid[x]);
                    }
                }
                assert(mid.dom().contains(start_ids@[k as int]));
                assert forall|j: int| 0 <= j < k + 1 implies nodes_rank@.dom().contains(
                    #[trigger] start_ids@[j],
                ) by {
                    if j < k {
                        assert(before.dom().contains(start_ids@[j]));
                        assert(mid.dom().contains(start_ids@[j]));
                    }
                }
                assert forall|j: int| 0 <= j < k + 1 implies self.outputs_ranked(
                    nodes_rank@,
                    #[trigger] start_ids@[j],
                ) by {
                    if j < k as int {
                        assert(self.outputs_ranked(before, start_ids@[j]));
                        if spec_find_node_from(self.nodes@, start_ids@[j], 0) is Some {
                            let ix = spec_find_node_from(self.nodes@, start_ids@[j], 0)->Some_0;
                            assert forall|e: int|
                                0 <= e < self.nodes@[ix as int].1.io_info@.len() && (
                                #[trigger] self.nodes@[ix as int].1.io_info@[e]).1.kind == 0
                                implies nodes_rank@.dom().contains(
                                self.nodes@[ix as int].1.io_info@[e].1.id,
                            ) by {
                                assert(before.dom().contains(
                                    self.nodes@[ix as int].1.io_info@[e].1.id,
                                ));
                                assert(mid.dom().contains(
                                    self.nodes@[ix as int].1.io_info@[e].1.id,
                                ));
                            }
                        }
                    }
                }
            }
            k += 1;
        }
        nodes_rank
    }

    /// Stacks the nodes of one rank top to bottom in the column at `x`.
    #[verifier::rlimit(100)]
    #[verifier::spinoff_prover]
    fn place_rank_row(
        &mut self,
        node_rank: &HashMap<i32, i32>,
        Ghost(m): Ghost<Map<i32, i32>>,
        Ghost(pre_nodes): Ghost<Seq<(i32, Node)>>,
        rank: i64,
        x: i64,
    )
        requires
            m == node_rank@,
            old(self).nodes@.len() == pre_nodes.len(),
            0 <= rank <= i32::MAX,
            forall|i: int|
                0 <= i < pre_nodes.len() ==> (#[trigger] old(self).nodes@[i]).0 == pre_nodes[i].0
                    && same_but_pos(pre_nodes[i].1, old(self).nodes@[i].1),
            forall|i: int|
                0 <= i < pre_nodes.len() && spec_ranked(m, (#[trigger] pre_nodes[i]).0)
                    && m[pre_nodes[i].0] < rank ==> old(self).nodes@[i].1.position.0 == 150 * (
                m[pre_nodes[i].0] + 1),
            forall|i: int|
                0 <= i < pre_nodes.len() && !(spec_ranked(m, (#[trigger] pre_nodes[i]).0)
                    && m[pre_nodes[i].0] < rank) ==> old(self).nodes@[i].1.position
                    == pre_nodes[i].1.position,
            forall|i: int|
                0 <= i < pre_nodes.len() && spec_ranked(m, (#[trigger] pre_nodes[i]).0)
                    && m[pre_nodes[i].0] < rank && first_of_rank(pre_nodes, m, i) ==> old(self).nodes@[i].1.position.1 == 0,
            forall|i1: int, i2: int|
                0 <= i1 < i2 < pre_nodes.len() && spec_ranked(m, (#[trigger] pre_nodes[i1]).0)
                    && spec_ranked(m, (#[trigger] pre_nodes[i2]).0) && m[pre_nodes[i1].0]
                    == m[pre_nodes[i2].0] && m[pre_nodes[i1].0] < rank ==> old(self).nodes@[i1].1.position.1 < old(self).nodes@[i2].1.position.1 || old(self).nodes@[i2].1.position.1 == i64::MAX,
            x == 150 * (rank + 1),
        ensures
            final(self).connections == old(self).connections,
            final(self).nodes@.len() == old(self).nodes@.len(),
            forall|i: int|
                0 <= i < pre_nodes.len() ==> (#[trigger] final(self).nodes@[i]).0 == pre_nodes[i].0
                    && same_but_pos(pre_nodes[i].1, final(self).nodes@[i].1),
            forall|i: int|
                0 <= i < pre_nodes.len() && spec_ranked(m, (#[trigger] pre_nodes[i]).0)
                    && m[pre_nodes[i].0] < rank + 1 ==> final(self).nodes@[i].1.position.0 == 150
                    * (m[pre_nodes[i].0] + 1),
            forall|i: int|
                0 <= i < pre_nodes.len() && !(spec_ranked(m, (#[trigger] pre_nodes[i]).0)
                    && m[pre_nodes[i].0] < rank + 1) ==> final(self).nodes@[i].1.position
                    == pre_nodes[i].1.position,
            forall|i: int|
                0 <= i < pre_nodes.len() && spec_ranked(m, (#[trigger] pre_nodes[i]).0)
                    && m[pre_nodes[i].0] < rank + 1 && first_of_rank(pre_nodes, m, i) ==> final(self).nodes@[i].1.position.1 == 0,
            forall|i1: int, i2: int|
                0 <= i1 < i2 < pre_nodes.len() && spec_ranked(m, (#[trigger] pre_nodes[i1]).0)
                    && spec_ranked(m, (#[trigger] pre_nodes[i2]).0) && m[pre_nodes[i1].0]
                    == m[pre_nodes[i2].0] && m[pre_nodes[i1].0] < rank + 1 ==> final(self).nodes@[i1].1.position.1 < final(self).nodes@[i2].1.position.1 || final(self).nodes@[i2].1.position.1 == i64::MAX,
    {
        let n = self.nodes.len();
        let mut current_y: i64 = 0;
        let mut idx: usize = 0;
        let mut j: usize = 0;
        let ghost mut last_ix: int = 0;
        while j < n
            invariant
                m == node_rank@,
                n == self.nodes@.len(),
                pre_nodes.len() == n,
                0 <= j <= n,
                idx <= j,
                0 <= rank <= i32::MAX,
                x == 150 * (rank + 1),
                self.connections == old(self).connections,
                forall|i: int|
                    0 <= i < n ==> (#[trigger] self.nodes@[i]).0 == pre_nodes[i].0 && same_but_pos(
                        pre_nodes[i].1,
                        self.nodes@[i].1,
                    ),
                forall|i: int|
                    0 <= i < n && spec_ranked(m, (#[trigger] pre_nodes[i]).0) && m[pre_nodes[i].0]
                        < rank ==> self.nodes@[i].1.position.0 == 150 * (m[pre_nodes[i].0] + 1),
                forall|i: int|
                    0 <= i < n && spec_ranked(m, (#[trigger] pre_nodes[i]).0) && m[pre_nodes[i].0]
                        < rank && first_of_rank(pre_nodes, m, i) ==> self.nodes@[i].1.position.1
                        == 0,
                forall|i1: int, i2: int|
                    0 <= i1 < i2 < n && spec_ranked(m, (#[trigger] pre_nodes[i1]).0)
                        && spec_ranked(m, (#[trigger] pre_nodes[i2]).0) && m[pre_nodes[i1].0]
                        == m[pre_nodes[i2].0] && m[pre_nodes[i1].0] < rank
                        ==> self.nodes@[i1].1.position.1 < self.nodes@[i2].1.position.1
                        || self.nodes@[i2].1.position.1 == i64::MAX,
                forall|i: int|
                    0 <= i < n && !(spec_ranked(m, (#[trigger] pre_nodes[i]).0)
                        && m[pre_nodes[i].0] < rank) && !(i < j && spec_on_rank(
                        pre_nodes,
                        m,
                        i,
                        rank as int,
                    )) ==> self.nodes@[i].1.position == pre_nodes[i].1.position,
                forall|i: int|
                    0 <= i < j && spec_on_rank(pre_nodes, m, i, rank as int)
                        ==> (#[trigger] self.nodes@[i]).1.position.0 == x,
                forall|i: int|
                    0 <= i < j && spec_on_rank(pre_nodes, m, i, rank as int) && first_of_rank(
                        pre_nodes,
                        m,
                        i,
                    ) ==> (#[trigger] self.nodes@[i]).1.position.1 == 0,
                forall|i1: int, i2: int|
                    0 <= i1 < i2 < j && spec_on_rank(pre_nodes, m, i1, rank as int)
                        && spec_on_rank(pre_nodes, m, i2, rank as int)
                        ==> self.nodes@[i1].1.position.1 < self.nodes@[i2].1.position.1
                        || self.nodes@[i2].1.position.1 == i64::MAX,
                idx == 0 ==> current_y == 0 && (forall|i: int|
                    0 <= i < j ==> !spec_on_rank(pre_nodes, m, i, rank as int)),
                idx > 0 ==> 0 <= last_ix < j && spec_on_rank(pre_nodes, m, last_ix, rank as int)
                    && (forall|i: int|
                    last_ix < i < j ==> !spec_on_rank(pre_nodes, m, i, rank as int)) && (current_y
                    > self.nodes@[last_ix].1.position.1 || current_y == i64::MAX),
            decreases n - j,
        {
            let id = self.nodes[j].0;
            let on_rank = match node_rank.get(&id) {
                Some(rr) => (*rr as i64) == rank,
                None => false,
            };
            if on_rank {
                proof {
                    assert(spec_on_rank(pre_nodes, m, j as int, rank as int));
                }
                let pos = self.nodes[j].1.get_pos();
                let dy = if pos.1 > 120 {
                    pos.1
                } else {
                    120
                };
                if idx > 0 {
                    current_y = sat_add_i64(current_y, dy);
                }
                let ghost y_prev_last = if idx > 0 {
                    self.nodes@[last_ix].1.position.1
                } else {
                    0i64
                };
                self.nodes[j].1.set_pos(x, current_y);
                proof {
                    if idx > 0 {
                        assert(current_y > y_prev_last || current_y == i64::MAX);
                        assert forall|i: int|
                            0 <= i < j && spec_on_rank(pre_nodes, m, i, rank as int) implies (
                        #[trigger] self.nodes@[i]).1.position.1 < current_y || current_y
                            == i64::MAX by {
                            if current_y != i64::MAX {
                                if i != last_ix {
                                    assert(self.nodes@[i].1.position.1 < y_prev_last
                                        || y_prev_last == i64::MAX);
                                }
                            }
                        }
                    } else {
                        assert(current_y == 0);
                        assert(first_of_rank(pre_nodes, m, j as int));
                    }
                    last_ix = j as int;
                }
                current_y = sat_add_i64(current_y, sat_add_i64(half_nonneg(dy), 10));
                idx += 1;
            }
            j += 1;
        }
        proof {
            assert forall|i: int|
                0 <= i < n && spec_ranked(m, (#[trigger] pre_nodes[i]).0) && m[pre_nodes[i].0]
                    < rank + 1 && first_of_rank(pre_nodes, m, i) implies
                self.nodes@[i].1.position.1 == 0 by {
                if m[pre_nodes[i].0] == rank {
                    assert(spec_on_rank(pre_nodes, m, i, rank as int));
                }
            }
        }
    }

    /// Lays the nodes out in rank columns. Ranks start at the camera and
    /// link-in nodes and follow output io entries; the returned ghost map is
    /// the computed ranking the placement follows. A rank that no node
    /// carries leaves its column empty; the pass goes on with the next rank.
    #[verifier::rlimit(100)]
    #[verifier::spinoff_prover]
    pub fn auto_layout_nodes(&mut self) -> (ranks: Ghost<Map<i32, i32>>)
        ensures
            placed_by_rank(*old(self), *final(self), ranks@),
            nonneg_ranks(ranks@),
            forall|i: int|
                0 <= i < old(self).nodes@.len() && spec_is_start_name(
                    (#[trigger] old(self).nodes@[i]).1.name@,
                ) ==> ranks@.contains_key(old(self).nodes@[i].0),
            forall|i: int|
                0 <= i < old(self).nodes@.len() && spec_is_start_name(
                    (#[trigger] old(self).nodes@[i]).1.name@,
                ) ==> old(self).outputs_ranked(ranks@, old(self).nodes@[i].0),
            forall|x: i32|
                #[trigger] ranks@.contains_key(x) && !(exists|i: int|
                    0 <= i < old(self).nodes@.len() && (#[trigger] old(self).nodes@[i]).0 == x
                        && spec_is_start_name(old(self).nodes@[i].1.name@)) ==> ranks@[x] >= 1,
    {
        let ghost pre = *self;
        let ghost pre_nodes = self.nodes@;
        let mut start_ids: Vec<i32> = Vec::new();
        let n = self.nodes.len();
        let mut k: usize = 0;
        while k < n
            invariant
                *self == pre,
                n == self.nodes@.len(),
                0 <= k <= n,
                forall|i: int|
                    0 <= i < k && spec_is_start_name((#[trigger] pre_nodes[i]).1.name@)
                        ==> start_ids@.contains(pre_nodes[i].0),
                forall|w: int|
                    0 <= w < start_ids@.len() ==> exists|i: int|
                        0 <= i < k && (#[trigger] start_ids@[w]) == pre_nodes[i].0
                            && spec_is_start_name(pre_nodes[i].1.name@),
                pre_nodes == self.nodes@,
            decreases n - k,
        {
            let ghost ids_before = start_ids@;
            let named = str_is(&self.nodes[k].1.name, "ColorCamera") || str_is(
                &self.nodes[k].1.name,
                "XLinkIn",
            ) || str_is(&self.nodes[k].1.name, "MonoCamera");
            if named {
                start_ids.push(self.nodes[k].0);
                proof {
                    assert forall|x: i32| ids_before.contains(x) implies start_ids@.contains(
                        x,
                    ) by {
                        let w = choose|w: int| 0 <= w < ids_before.len() && ids_before[w] == x;
                        assert(start_ids@[w] == x);
                    }
                    assert(start_ids@[start_ids@.len() - 1] == pre_nodes[k as int].0);
                }
            }
            k += 1;
        }
        let node_rank = self.compute_node_rank(&start_ids);
        let ghost m = node_rank@;
        proof {
            assert forall|i: int|
                0 <= i < n && spec_is_start_name((#[trigger] pre_nodes[i]).1.name@) implies
                m.contains_key(pre_nodes[i].0) && pre.outputs_ranked(m, pre_nodes[i].0) by {
                assert(start_ids@.contains(pre_nodes[i].0));
                let w = choose|w: int|
                    0 <= w < start_ids@.len() && start_ids@[w] == pre_nodes[i].0;
                assert(m.dom().contains(start_ids@[w]));
                assert(self.outputs_ranked(m, start_ids@[w]));
            }
            assert forall|x: i32|
                #[trigger] m.contains_key(x) && !(exists|i: int|
                    0 <= i < n && (#[trigger] pre_nodes[i]).0 == x && spec_is_start_name(
                        pre_nodes[i].1.name@,
                    )) implies m[x] >= 1 by {
                if start_ids@.contains(x) {
                    let w = choose|w: int| 0 <= w < start_ids@.len() && start_ids@[w] == x;
                    let i = choose|i: int|
                        0 <= i < n && start_ids@[w] == pre_nodes[i].0 && spec_is_start_name(
                            pre_nodes[i].1.name@,
                        );
                    assert(pre_nodes[i].0 == x && spec_is_start_name(pre_nodes[i].1.name@));
                }
            }
        }

        let mut max_rank: i64 = -1;
        let mut k: usize = 0;
        while k < n
            invariant
                *self == pre,
                n == self.nodes@.len(),
                pre_nodes == self.nodes@,
                m == node_rank@,
                0 <= k <= n,
                -1 <= max_rank <= i32::MAX,
                forall|i: int|
                    0 <= i < k && m.contains_key((#[trigger] pre_nodes[i]).0) ==> m[pre_nodes[i].0]
                        <= max_rank,
            decreases n - k,
        {
            let id = self.nodes[k].0;
            proof {
                assert(id == pre_nodes[k as int].0);
            }
            match node_rank.get(&id) {
                Some(r) => {
                    proof {
                        assert(m.contains_key(id) && m[id] == *r);
                    }
                    if (*r as i64) > max_rank {
                        max_rank = *r as i64;
                    }
                    proof {
                        assert(m[id] <= max_rank);
                    }
                },
                None => {
                    proof {
                        assert(!m.contains_key(id));
                    }
                },
            }
            k += 1;
        }

        let mut current_x: i64 = 0;
        let mut rank: i64 = 0;
        while rank <= max_rank
            invariant
                n == self.nodes@.len(),
                pre_nodes.len() == n,
                pre_nodes == pre.nodes@,
                m == node_rank@,
                0 <= rank <= max_rank + 1,
                -1 <= max_rank <= i32::MAX,
                current_x == 150 * rank,
                forall|i: int|
                    0 <= i < n && m.contains_key((#[trigger] pre_nodes[i]).0) ==> m[pre_nodes[i].0]
                        <= max_rank,
                self.connections == pre.connections,
                self.nodes@.len() == pre.nodes@.len(),
                forall|i: int|
                    0 <= i < n ==> (#[trigger] self.nodes@[i]).0 == pre_nodes[i].0 && same_but_pos(
                        pre_nodes[i].1,
                        self.nodes@[i].1,
                    ),
                forall|i: int|
                    0 <= i < n && spec_ranked(m, (#[trigger] pre_nodes[i]).0) && m[pre_nodes[i].0]
                        < rank ==> self.nodes@[i].1.position.0 == 150 * (m[pre_nodes[i].0] + 1),
                forall|i: int|
                    0 <= i < n && !(spec_ranked(m, (#[trigger] pre_nodes[i]).0)
                        && m[pre_nodes[i].0] < rank) ==> self.nodes@[i].1.position
                        == pre_nodes[i].1.position,
                forall|i: int|
                    0 <= i < n && spec_ranked(m, (#[trigger] pre_nodes[i]).0) && m[pre_nodes[i].0]
                        < rank && first_of_rank(pre_nodes, m, i) ==> self.nodes@[i].1.position.1
                        == 0,
                forall|i1: int, i2: int|
                    0 <= i1 < i2 < n && spec_ranked(m, (#[trigger] pre_nodes[i1]).0)
                        && spec_ranked(m, (#[trigger] pre_nodes[i2]).0) && m[pre_nodes[i1].0]
                        == m[pre_nodes[i2].0] && m[pre_nodes[i1].0] < rank
                        ==> self.nodes@[i1].1.position.1 < self.nodes@[i2].1.position.1
                        || self.nodes@[i2].1.position.1 == i64::MAX,
            decreases max_rank - rank + 1,
        {
            current_x = sat_add_i64(current_x, 150);
            self.place_rank_row(&node_rank, Ghost(m), Ghost(pre_nodes), rank, current_x);
            rank += 1;
        }
        proof {
            assert forall|i: int|
                0 <= i < n && spec_ranked(m, (#[trigger] pre_nodes[i]).0) implies
                m[pre_nodes[i].0] < rank by {}
            assert(placed_by_rank(pre, *self, m));
        }
        Ghost(m)
    }
}

/// A found node index is in range and carries the id.
pub proof fn lemma_find_node_from_in_range(nodes: Seq<(i32, Node)>, id: i32, from: int)
    requires
        nodes.len() <= usize::MAX,
        spec_find_node_from(nodes, id, from) is Some,
    ensures
        spec_find_node_from(nodes, id, from)->Some_0 < nodes.len(),
        nodes[spec_find_node_from(nodes, id, from)->Some_0 as int].0 == id,
    decreases nodes.len() - from,
{
    if from < 0 || from >= nodes.len() {
    } else if nodes[from].0 == id {
        assert(spec_find_node_from(nodes, id, from) == Some(from as usize));
    } else {
        lemma_find_node_from_in_range(nodes, id, from + 1);
        assert(spec_find_node_from(nodes, id, from) == spec_find_node_from(nodes, id, from + 1));
    }
}

} // verus!
