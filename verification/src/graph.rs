use vstd::prelude::*;

use crate::template::MyNodeData;
use crate::value::EvalError;
use crate::value::MyDataType;
use crate::value::MyValueType;

verus! {

/// Whether an input port accepts a connection, an inline constant, or both.
#[derive(PartialEq, Eq, Structural, Clone, Copy, Debug)]
pub enum InputParamKind {
    ConnectionOnly,
    ConstantOnly,
    ConnectionOrConstant,
}

/// An input port. The port's name lives in the owning node's port list.
pub struct InputParam {
    /// The node this port belongs to.
    pub node: usize,
    pub typ: MyDataType,
    /// The inline constant, used when no connection reaches the port.
    pub value: MyValueType,
    pub kind: InputParamKind,
    pub shown_inline: bool,
}

/// An output port. The port's name lives in the owning node's port list.
pub struct OutputParam {
    /// The node this port belongs to.
    pub node: usize,
    pub typ: MyDataType,
}

/// A node instance: a label, the template it was built from, and its named
/// ports. Port ids index into the graph's `inputs` and `outputs`.
pub struct GraphNode {
    pub label: String,
    pub user_data: MyNodeData,
    pub inputs: Vec<(String, usize)>,
    pub outputs: Vec<(String, usize)>,
}

/// A directed graph of nodes. Ports are stored centrally and referenced by
/// index; `connections[i]` holds the output port feeding input port `i`, if
/// any.
pub struct Graph {
    pub nodes: Vec<GraphNode>,
    pub inputs: Vec<InputParam>,
    pub outputs: Vec<OutputParam>,
    pub connections: Vec<Option<usize>>,
}

/// The first port in `ports` whose name reads `name`, if any.
pub open spec fn spec_find_port(ports: Seq<(String, usize)>, name: Seq<char>) -> Option<usize>
    decreases ports.len(),
{
    if ports.len() == 0 {
        None
    } else if ports[0].0@ == name {
        Some(ports[0].1)
    } else {
        spec_find_port(ports.drop_first(), name)
    }
}

/// Skipping a prefix of ports that all miss `name` does not change the find.
pub proof fn lemma_find_port_skip(ports: Seq<(String, usize)>, name: Seq<char>, i: int)
    requires
        0 <= i <= ports.len(),
        forall|k: int| 0 <= k < i ==> ports[k].0@ != name,
    ensures
        spec_find_port(ports, name) == spec_find_port(ports.skip(i), name),
    decreases i,
{
    if i > 0 {
        assert(ports.skip(i - 1).drop_first() =~= ports.skip(i));
        lemma_find_port_skip(ports, name, i - 1);
    } else {
        assert(ports.skip(0) =~= ports);
    }
}

/// A found port id occurs in the list.
pub proof fn lemma_find_port_in_list(ports: Seq<(String, usize)>, name: Seq<char>)
    requires
        spec_find_port(ports, name) is Some,
    ensures
        exists|k: int|
            0 <= k < ports.len() && ports[k].1 == spec_find_port(ports, name)->Some_0,
    decreases ports.len(),
{
    if ports[0].0@ != name {
        lemma_find_port_in_list(ports.drop_first(), name);
        let k = choose|k: int|
            0 <= k < ports.drop_first().len() && ports.drop_first()[k].1 == spec_find_port(
                ports.drop_first(),
                name,
            )->Some_0;
        assert(ports[k + 1].1 == spec_find_port(ports, name)->Some_0);
    }
}

impl GraphNode {
    /// The first input port named `name`, if any.
    pub open spec fn spec_get_input(self, name: Seq<char>) -> Option<usize> {
        spec_find_port(self.inputs@, name)
    }

    /// The first output port named `name`, if any.
    pub open spec fn spec_get_output(self, name: Seq<char>) -> Option<usize> {
        spec_find_port(self.outputs@, name)
    }

    /// Looks the input port named `name` up in this node's port list.
    pub fn get_input(&self, name: &str) -> (r: Result<usize, EvalError>)
        ensures
            match r {
                Ok(id) => self.spec_get_input(name@) == Some(id),
                Err(e) => self.spec_get_input(name@) is None && e == EvalError::NoSuchParameter,
            },
    {
        find_port(&self.inputs, name)
    }

    /// Looks the output port named `name` up in this node's port list.
    pub fn get_output(&self, name: &str) -> (r: Result<usize, EvalError>)
        ensures
            match r {
                Ok(id) => self.spec_get_output(name@) == Some(id),
                Err(e) => self.spec_get_output(name@) is None && e == EvalError::NoSuchParameter,
            },
    {
        find_port(&self.outputs, name)
    }
}

/// Scans `ports` for the first entry named `name`.
fn find_port(ports: &Vec<(String, usize)>, name: &str) -> (r: Result<usize, EvalError>)
    ensures
        match r {
            Ok(id) => spec_find_port(ports@, name@) == Some(id),
            Err(e) => spec_find_port(ports@, name@) is None && e == EvalError::NoSuchParameter,
        },
{
    let key: String = name.to_owned();
    let n = ports.len();
    let mut i: usize = 0;
    while i < n
        invariant
            n == ports.len(),
            0 <= i <= n,
            key@ == name@,
            forall|k: int| 0 <= k < i ==> ports@[k].0@ != name@,
        decreases n - i,
    {
        if ports[i].0.eq(&key) {
            proof {
                lemma_find_port_skip(ports@, name@, i as int);
                assert(ports@.skip(i as int)[0] == ports@[i as int]);
            }
            return Ok(ports[i].1);
        }
        i += 1;
    }
    proof {
        lemma_find_port_skip(ports@, name@, n as int);
        assert(ports@.skip(n as int) =~= Seq::<(String, usize)>::empty());
    }
    Err(EvalError::NoSuchParameter)
}

impl Graph {
    /// Every port id stored anywhere in the graph is in bounds, every port
    /// knows a node that exists, and the connection table is parallel to the
    /// input table.
    pub open spec fn wf(self) -> bool {
        &&& self.connections@.len() == self.inputs@.len()
        &&& forall|i: int|
            0 <= i < self.inputs@.len() ==> (#[trigger] self.inputs@[i]).node < self.nodes@.len()
        &&& forall|i: int|
            0 <= i < self.outputs@.len() ==> (#[trigger] self.outputs@[i]).node < self.nodes@.len()
        &&& forall|i: int|
            0 <= i < self.connections@.len() ==> ((#[trigger] self.connections@[i]) matches Some(o)
                ==> o < self.outputs@.len())
        &&& forall|n: int, j: int|
            0 <= n < self.nodes@.len() && 0 <= j < self.nodes@[n].inputs@.len() ==> (
            #[trigger] self.nodes@[n].inputs@[j]).1 < self.inputs@.len()
        &&& forall|n: int, j: int|
            0 <= n < self.nodes@.len() && 0 <= j < self.nodes@[n].outputs@.len() ==> (
            #[trigger] self.nodes@[n].outputs@[j]).1 < self.outputs@.len()
    }

    /// An empty graph.
    pub fn new() -> (g: Graph)
        ensures
            g.wf(),
            g.nodes@ =~= Seq::<GraphNode>::empty(),
            g.inputs@ =~= Seq::<InputParam>::empty(),
            g.outputs@ =~= Seq::<OutputParam>::empty(),
            g.connections@ =~= Seq::<Option<usize>>::empty(),
    {
        Graph { nodes: Vec::new(), inputs: Vec::new(), outputs: Vec::new(), connections: Vec::new() }
    }

    /// Adds a node with no ports yet and returns its id.
    pub fn add_node(&mut self, label: String, user_data: MyNodeData) -> (id: usize)
        requires
            old(self).wf(),
        ensures
            final(self).wf(),
            id == old(self).nodes@.len(),
            final(self).nodes@.len() == old(self).nodes@.len() + 1,
            forall|n: int| 0 <= n < old(self).nodes@.len() ==> final(self).nodes@[n] == old(self).nodes@[n],
            final(self).nodes@[id as int].label == label,
            final(self).nodes@[id as int].user_data == user_data,
            final(self).nodes@[id as int].inputs@ =~= Seq::<(String, usize)>::empty(),
            final(self).nodes@[id as int].outputs@ =~= Seq::<(String, usize)>::empty(),
            final(self).inputs@ == old(self).inputs@,
            final(self).outputs@ == old(self).outputs@,
            final(self).connections@ == old(self).connections@,
    {
        let id = self.nodes.len();
        self.nodes.push(
            GraphNode { label, user_data, inputs: Vec::new(), outputs: Vec::new() },
        );
        id
    }

    /// Adds an input port to `node_id` and returns the new port's id.
    pub fn add_input_param(
        &mut self,
        node_id: usize,
        name: String,
        typ: MyDataType,
        value: MyValueType,
        kind: InputParamKind,
        shown_inline: bool,
    ) -> (id: usize)
        requires
            old(self).wf(),
            node_id < old(self).nodes@.len(),
        ensures
            final(self).wf(),
            id == old(self).inputs@.len(),
            final(self).inputs@ =~= old(self).inputs@.push(
                InputParam { node: node_id, typ, value, kind, shown_inline },
            ),
            final(self).connections@ =~= old(self).connections@.push(None),
            final(self).outputs@ == old(self).outputs@,
            final(self).nodes@.len() == old(self).nodes@.len(),
            final(self).nodes@[node_id as int].inputs@ =~= old(self).nodes@[node_id as int].inputs@.push(
                (name, id),
            ),
            final(self).nodes@[node_id as int].outputs == old(self).nodes@[node_id as int].outputs,
            final(self).nodes@[node_id as int].label == old(self).nodes@[node_id as int].label,
            final(self).nodes@[node_id as int].user_data == old(self).nodes@[node_id as int].user_data,
            forall|n: int|
                0 <= n < final(self).nodes@.len() && n != node_id ==> final(self).nodes@[n] == old(
                    self,
                ).nodes@[n],
    {
        let id = self.inputs.len();
        self.inputs.push(InputParam { node: node_id, typ, value, kind, shown_inline });
        self.connections.push(None);
        let node = &mut self.nodes[node_id];
        node.inputs.push((name, id));
        id
    }

    /// Adds an output port to `node_id` and returns the new port's id.
    pub fn add_output_param(&mut self, node_id: usize, name: String, typ: MyDataType) -> (id:
        usize)
        requires
            old(self).wf(),
            node_id < old(self).nodes@.len(),
        ensures
            final(self).wf(),
            id == old(self).outputs@.len(),
            final(self).outputs@ =~= old(self).outputs@.push(OutputParam { node: node_id, typ }),
            final(self).inputs@ == old(self).inputs@,
            final(self).connections@ == old(self).connections@,
            final(self).nodes@.len() == old(self).nodes@.len(),
            final(self).nodes@[node_id as int].outputs@ =~= old(self).nodes@[node_id as int].outputs@.push(
                (name, id),
            ),
            final(self).nodes@[node_id as int].inputs == old(self).nodes@[node_id as int].inputs,
            final(self).nodes@[node_id as int].label == old(self).nodes@[node_id as int].label,
            final(self).nodes@[node_id as int].user_data == old(self).nodes@[node_id as int].user_data,
            forall|n: int|
                0 <= n < final(self).nodes@.len() && n != node_id ==> final(self).nodes@[n] == old(
                    self,
                ).nodes@[n],
    {
        let id = self.outputs.len();
        self.outputs.push(OutputParam { node: node_id, typ });
        let node = &mut self.nodes[node_id];
        node.outputs.push((name, id));
        id
    }

    /// The output port feeding `input`, if that input exists and is wired.
    pub open spec fn spec_connection(self, input: usize) -> Option<usize> {
        if input < self.connections@.len() {
            self.connections@[input as int]
        } else {
            None
        }
    }

    /// Reads the connection table for `input`.
    pub fn connection(&self, input: usize) -> (r: Option<usize>)
        ensures
            r == self.spec_connection(input),
    {
        if input < self.connections.len() {
            self.connections[input]
        } else {
            None
        }
    }

    /// Wires `output` into `input`, replacing any previous connection there.
    pub fn add_connection(&mut self, output: usize, input: usize)
        requires
            old(self).wf(),
            output < old(self).outputs@.len(),
            input < old(self).inputs@.len(),
        ensures
            final(self).wf(),
            final(self).connections@ =~= old(self).connections@.update(input as int, Some(output)),
            final(self).nodes@ == old(self).nodes@,
            final(self).inputs@ == old(self).inputs@,
            final(self).outputs@ == old(self).outputs@,
    {
        self.connections[input] = Some(output);
    }
}

} // verus!
